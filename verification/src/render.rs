//! Serialization of the verification result as one JSON object, with full
//! string escaping. The output is always well-formed JSON, whatever the
//! manifest contained.

use vstd::prelude::*;
use crate::result::{StatusCode, Claims, HistoryEvent, VerificationResult, SpecClaims,
    SpecHistoryEvent, SpecResult, view_opt_text, views_of};

verus! {

/// One hexadecimal digit, lower case.
pub open spec fn spec_hex_digit(n: int) -> char {
    if n == 0 { '0' } else if n == 1 { '1' } else if n == 2 { '2' } else if n == 3 { '3' }
    else if n == 4 { '4' } else if n == 5 { '5' } else if n == 6 { '6' } else if n == 7 { '7' }
    else if n == 8 { '8' } else if n == 9 { '9' } else if n == 10 { 'a' } else if n == 11 { 'b' }
    else if n == 12 { 'c' } else if n == 13 { 'd' } else if n == 14 { 'e' } else { 'f' }
}

/// The escape of one character inside a JSON string literal.
pub open spec fn spec_esc_char(c: char) -> Seq<char> {
    if c == '"' { seq!['\\', '"'] }
    else if c == '\\' { seq!['\\', '\\'] }
    else if c == '\n' { seq!['\\', 'n'] }
    else if c == '\r' { seq!['\\', 'r'] }
    else if c == '\t' { seq!['\\', 't'] }
    else if c == '\u{8}' { seq!['\\', 'b'] }
    else if c == '\u{c}' { seq!['\\', 'f'] }
    else if (c as u32) < 32 {
        seq!['\\', 'u', '0', '0', spec_hex_digit(c as u32 as int / 16), spec_hex_digit(
            c as u32 as int % 16,
        )]
    } else {
        seq![c]
    }
}

/// The escape of the characters `s[i..]`, concatenated.
pub open spec fn spec_escape_from(s: Seq<char>, i: int) -> Seq<char>
    decreases s.len() - i,
{
    if i < 0 || i >= s.len() {
        Seq::<char>::empty()
    } else {
        spec_esc_char(s[i]) + spec_escape_from(s, i + 1)
    }
}

/// The escape of a whole string.
pub open spec fn spec_escape(s: Seq<char>) -> Seq<char> {
    spec_escape_from(s, 0)
}

/// A string as a JSON string literal, quotes included.
pub open spec fn spec_json_str(s: Seq<char>) -> Seq<char> {
    seq!['"'] + spec_escape(s) + seq!['"']
}

/// A JSON string literal, or `null` for an absent string.
pub open spec fn spec_opt_str_json(o: Option<Seq<char>>) -> Seq<char> {
    match o {
        Some(s) => spec_json_str(s),
        None => "null"@,
    }
}

/// The serialized name of a status code.
pub open spec fn spec_status_text(s: StatusCode) -> Seq<char> {
    match s {
        StatusCode::Valid => "valid"@,
        StatusCode::Invalid => "invalid"@,
        StatusCode::Expired => "expired"@,
        StatusCode::NoData => "none"@,
        StatusCode::Error => "error"@,
    }
}

/// One history event as a JSON object.
pub open spec fn spec_event_json(e: SpecHistoryEvent) -> Seq<char> {
    "{\"action\":"@ + spec_json_str(e.action) + ",\"tool\":"@ + spec_json_str(e.tool)
        + ",\"timestamp\":"@ + spec_json_str(e.timestamp) + "}"@
}

/// Events `evs[i..]` as the comma-separated inside of a JSON array.
pub open spec fn spec_events_json_from(evs: Seq<SpecHistoryEvent>, i: int) -> Seq<char>
    decreases evs.len() - i,
{
    if i < 0 || i >= evs.len() {
        Seq::<char>::empty()
    } else if i == 0 {
        spec_event_json(evs[0]) + spec_events_json_from(evs, 1)
    } else {
        ","@ + spec_event_json(evs[i]) + spec_events_json_from(evs, i + 1)
    }
}

/// The claims as a JSON object, or `null` when absent.
pub open spec fn spec_claims_json(c: Option<SpecClaims>) -> Seq<char> {
    match c {
        Some(cl) => "{\"creator\":"@ + spec_opt_str_json(cl.creator) + ",\"tool\":"@
            + spec_opt_str_json(cl.tool) + ",\"date\":"@ + spec_opt_str_json(cl.date)
            + ",\"title\":"@ + spec_opt_str_json(cl.title) + "}"@,
        None => "null"@,
    }
}

/// The whole verification result as one JSON object.
pub open spec fn spec_render(r: SpecResult) -> Seq<char> {
    "{\"status\":\""@ + spec_status_text(r.status) + "\",\"claims\":"@ + spec_claims_json(r.claims)
        + ",\"history\":["@ + spec_events_json_from(r.history, 0) + "],\"thumbnail\":"@
        + spec_opt_str_json(r.thumbnail) + ",\"raw_manifest\":"@
        + spec_opt_str_json(r.raw_manifest) + "}"@
}

/// Relies on String::push: appends exactly one character to the string.
#[verifier::external_body]
fn push_char(s: &mut String, c: char)
    ensures
        final(s)@ == old(s)@.push(c),
{
    s.push(c);
}

/// One hexadecimal digit, lower case.
fn hex_digit(n: u8) -> (c: char)
    requires
        n < 16,
    ensures
        c == spec_hex_digit(n as int),
{
    if n == 0 { '0' } else if n == 1 { '1' } else if n == 2 { '2' } else if n == 3 { '3' }
    else if n == 4 { '4' } else if n == 5 { '5' } else if n == 6 { '6' } else if n == 7 { '7' }
    else if n == 8 { '8' } else if n == 9 { '9' } else if n == 10 { 'a' } else if n == 11 { 'b' }
    else if n == 12 { 'c' } else if n == 13 { 'd' } else if n == 14 { 'e' } else { 'f' }
}

/// Appends the JSON escape of `s` to `out`.
#[verifier::loop_isolation(false)]
fn append_escaped(out: &mut String, s: &str)
    ensures
        final(out)@ == old(out)@ + spec_escape(s@),
{
    let n = s.unicode_len();
    let mut i: usize = 0;
    while i < n
        invariant
            0 <= i <= n,
            old(out)@ + spec_escape(s@) == out@ + spec_escape_from(s@, i as int),
        decreases n - i,
    {
        let ghost before = out@;
        let c = s.get_char(i);
        if c == '"' {
            push_char(out, '\\');
            push_char(out, '"');
        } else if c == '\\' {
            push_char(out, '\\');
            push_char(out, '\\');
        } else if c == '\n' {
            push_char(out, '\\');
            push_char(out, 'n');
        } else if c == '\r' {
            push_char(out, '\\');
            push_char(out, 'r');
        } else if c == '\t' {
            push_char(out, '\\');
            push_char(out, 't');
        } else if (c as u32) == 8 {
            push_char(out, '\\');
            push_char(out, 'b');
        } else if (c as u32) == 12 {
            push_char(out, '\\');
            push_char(out, 'f');
        } else if (c as u32) < 32 {
            let x = c as u32;
            push_char(out, '\\');
            push_char(out, 'u');
            push_char(out, '0');
            push_char(out, '0');
            push_char(out, hex_digit((x / 16) as u8));
            push_char(out, hex_digit((x % 16) as u8));
        } else {
            push_char(out, c);
        }
        proof {
            assert(out@ =~= before + spec_esc_char(s@[i as int]));
            assert(before + spec_esc_char(s@[i as int]) + spec_escape_from(s@, i + 1) =~= before
                + spec_escape_from(s@, i as int));
        }
        i = i + 1;
    }
    proof {
        assert(out@ =~= old(out)@ + spec_escape(s@));
    }
}

/// Appends `s` as a JSON string literal to `out`.
fn append_json_str(out: &mut String, s: &str)
    ensures
        final(out)@ == old(out)@ + spec_json_str(s@),
{
    push_char(out, '"');
    append_escaped(out, s);
    push_char(out, '"');
    proof {
        assert(out@ =~= old(out)@ + spec_json_str(s@));
    }
}

/// Appends a JSON string literal or `null` to `out`.
fn append_opt_str(out: &mut String, o: &Option<String>)
    ensures
        final(out)@ == old(out)@ + spec_opt_str_json(view_opt_text(*o)),
{
    match o {
        Some(s) => append_json_str(out, s.as_str()),
        None => out.append("null"),
    }
}

/// The serialized name of a status code.
fn status_text(s: StatusCode) -> (r: &'static str)
    ensures
        r@ == spec_status_text(s),
{
    match s {
        StatusCode::Valid => "valid",
        StatusCode::Invalid => "invalid",
        StatusCode::Expired => "expired",
        StatusCode::NoData => "none",
        StatusCode::Error => "error",
    }
}

/// Appends one history event as a JSON object to `out`.
fn append_event(out: &mut String, e: &HistoryEvent)
    ensures
        final(out)@ == old(out)@ + spec_event_json(e@),
{
    out.append("{\"action\":");
    append_json_str(out, e.action.as_str());
    out.append(",\"tool\":");
    append_json_str(out, e.tool.as_str());
    out.append(",\"timestamp\":");
    append_json_str(out, e.timestamp.as_str());
    out.append("}");
    proof {
        assert(out@ =~= old(out)@ + spec_event_json(e@));
    }
}

/// Appends the claims as a JSON object or `null` to `out`.
fn append_claims(out: &mut String, c: &Option<Claims>)
    ensures
        final(out)@ == old(out)@ + spec_claims_json(match *c {
            Some(cl) => Some(cl@),
            None => None,
        }),
{
    match c {
        Some(cl) => {
            out.append("{\"creator\":");
            append_opt_str(out, &cl.creator);
            out.append(",\"tool\":");
            append_opt_str(out, &cl.tool);
            out.append(",\"date\":");
            append_opt_str(out, &cl.date);
            out.append(",\"title\":");
            append_opt_str(out, &cl.title);
            out.append("}");
            proof {
                assert(out@ =~= old(out)@ + spec_claims_json(Some(cl@)));
            }
        },
        None => {
            out.append("null");
        },
    }
}

/// Appends the whole history as the inside of a JSON array to `out`.
#[verifier::loop_isolation(false)]
fn append_events(out: &mut String, evs: &Vec<HistoryEvent>)
    ensures
        final(out)@ == old(out)@ + spec_events_json_from(views_of(evs@), 0),
{
    let n = evs.len();
    let mut i: usize = 0;
    while i < n
        invariant
            0 <= i <= n,
            old(out)@ + spec_events_json_from(views_of(evs@), 0) == out@
                + spec_events_json_from(views_of(evs@), i as int),
        decreases n - i,
    {
        let ghost before = out@;
        if i > 0 {
            out.append(",");
        }
        append_event(out, &evs[i]);
        proof {
            let ghost vs = views_of(evs@);
            if i > 0 {
                assert(out@ =~= before + (","@ + spec_event_json(vs[i as int])));
                assert(before + (","@ + spec_event_json(vs[i as int]))
                    + spec_events_json_from(vs, i + 1) =~= before
                    + spec_events_json_from(vs, i as int));
            } else {
                assert(out@ =~= before + spec_event_json(vs[0]));
                assert(before + spec_event_json(vs[0]) + spec_events_json_from(vs, 1) =~= before
                    + spec_events_json_from(vs, 0));
            }
        }
        i = i + 1;
    }
    proof {
        assert(out@ =~= old(out)@ + spec_events_json_from(views_of(evs@), 0));
    }
}

/// Serializes a verification result as one JSON object. Total: every result
/// value has a well-formed serialization.
pub fn render_result(r: &VerificationResult) -> (out: String)
    ensures
        out@ == spec_render(r@),
{
    let mut out = String::new();
    out.append("{\"status\":\"");
    out.append(status_text(r.status));
    out.append("\",\"claims\":");
    append_claims(&mut out, &r.claims);
    out.append(",\"history\":[");
    append_events(&mut out, &r.history);
    out.append("],\"thumbnail\":");
    append_opt_str(&mut out, &r.thumbnail);
    out.append(",\"raw_manifest\":");
    append_opt_str(&mut out, &r.raw_manifest);
    out.append("}");
    proof {
        assert(out@ =~= spec_render(r@));
    }
    out
}

} // verus!
