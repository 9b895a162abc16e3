//! Claims extraction: creator, authoring tool, title and creation date,
//! pulled from several possible locations with a defined precedence order.
//! The whole value is absent (not empty) when none of the four resolved.

use vstd::prelude::*;
use crate::tree::{TreeValue, spec_get, spec_as_array, spec_as_text, spec_text_field};
use crate::text::{spec_contains, str_contains};
use crate::result::{Claims, SpecClaims, view_opt_text};

verus! {

/// The version string appended to the tool: the text of the version value,
/// or empty when that value is not text.
pub open spec fn spec_version_text(ver: TreeValue) -> Seq<char> {
    match spec_as_text(ver) {
        Some(s) => s,
        None => Seq::<char>::empty(),
    }
}

/// The authoring tool: `claim_generator`, overridden entirely by
/// `claim_generator_info.name` when that key is present (even by a
/// non-string value, which reads as no tool), with
/// `claim_generator_info.version` appended after a space when the version
/// key is present and a tool value is current.
pub open spec fn spec_tool(node: TreeValue) -> Option<Seq<char>> {
    let base = spec_text_field(node, "claim_generator"@);
    match spec_get(node, "claim_generator_info"@) {
        Some(info) => {
            let named = match spec_get(info, "name"@) {
                Some(nm) => spec_as_text(nm),
                None => base,
            };
            match spec_get(info, "version"@) {
                Some(ver) => match named {
                    Some(t) => Some(t + " "@ + spec_version_text(ver)),
                    None => None,
                },
                None => named,
            }
        },
        None => base,
    }
}

/// The creator assignment made by one assertion, if it makes one: an
/// assertion labelled with a fragment "creativeWork" or "creator" whose data
/// carries an `author` assigns the author's name — for an array author, the
/// `name` of its first element (possibly assigning "absent" when that name
/// is missing or not text); for any other author value, its `name` field
/// when that key is present.
pub open spec fn spec_creator_update(a: TreeValue) -> Option<Option<Seq<char>>> {
    match spec_text_field(a, "label"@) {
        Some(label) => if spec_contains(label, "creativeWork"@) || spec_contains(label, "creator"@) {
            match spec_get(a, "data"@) {
                Some(data) => match spec_get(data, "author"@) {
                    Some(author) => match spec_as_array(author) {
                        Some(items) => if items.len() > 0 {
                            Some(spec_text_field(items[0], "name"@))
                        } else {
                            None
                        },
                        None => match spec_get(author, "name"@) {
                            Some(nm) => Some(spec_as_text(nm)),
                            None => None,
                        },
                    },
                    None => None,
                },
                None => None,
            }
        } else {
            None
        },
        None => None,
    }
}

/// Creator after scanning assertions `arr[..i]`: the last assignment wins.
pub open spec fn spec_creator_upto(arr: Seq<TreeValue>, i: int) -> Option<Seq<char>>
    decreases i,
{
    if i <= 0 {
        None
    } else {
        match spec_creator_update(arr[i - 1]) {
            Some(v) => v,
            None => spec_creator_upto(arr, i - 1),
        }
    }
}

/// The creator claimed by the node's assertions.
pub open spec fn spec_creator(node: TreeValue) -> Option<Seq<char>> {
    match spec_get(node, "assertions"@) {
        Some(a) => match spec_as_array(a) {
            Some(arr) => spec_creator_upto(arr, arr.len() as int),
            None => None,
        },
        None => None,
    }
}

/// The title carried by one assertion, if any: an assertion labelled with a
/// fragment "creativeWork" whose data has a text `name`.
pub open spec fn spec_title_update(a: TreeValue) -> Option<Seq<char>> {
    match spec_text_field(a, "label"@) {
        Some(label) => if spec_contains(label, "creativeWork"@) {
            match spec_get(a, "data"@) {
                Some(data) => spec_text_field(data, "name"@),
                None => None,
            }
        } else {
            None
        },
        None => None,
    }
}

/// Title after scanning assertions `arr[..i]`: the last match wins.
pub open spec fn spec_title_upto(arr: Seq<TreeValue>, i: int) -> Option<Seq<char>>
    decreases i,
{
    if i <= 0 {
        None
    } else {
        match spec_title_update(arr[i - 1]) {
            Some(t) => Some(t),
            None => spec_title_upto(arr, i - 1),
        }
    }
}

/// The title claimed by the node's assertions.
pub open spec fn spec_title(node: TreeValue) -> Option<Seq<char>> {
    match spec_get(node, "assertions"@) {
        Some(a) => match spec_as_array(a) {
            Some(arr) => spec_title_upto(arr, arr.len() as int),
            None => None,
        },
        None => None,
    }
}

/// The text at `node.k1.k2`, if both levels are present and the leaf is text.
pub open spec fn spec_nested_text(node: TreeValue, k1: Seq<char>, k2: Seq<char>) -> Option<Seq<char>> {
    match spec_get(node, k1) {
        Some(m) => spec_text_field(m, k2),
        None => None,
    }
}

/// The creation date: `metadata.dateTime`, falling back to
/// `signature_info.time`.
pub open spec fn spec_date(node: TreeValue) -> Option<Seq<char>> {
    match spec_nested_text(node, "metadata"@, "dateTime"@) {
        Some(d) => Some(d),
        None => spec_nested_text(node, "signature_info"@, "time"@),
    }
}

/// The claims of a node: absent iff all four fields are absent.
pub open spec fn spec_claims(node: TreeValue) -> Option<SpecClaims> {
    let c = SpecClaims {
        creator: spec_creator(node),
        tool: spec_tool(node),
        date: spec_date(node),
        title: spec_title(node),
    };
    if c.creator is Some || c.tool is Some || c.date is Some || c.title is Some {
        Some(c)
    } else {
        None
    }
}

/// Copies an optionally found string.
fn cloned_text(s: Option<&String>) -> (r: Option<String>)
    ensures
        r is Some <==> s is Some,
        r matches Some(t) ==> s matches Some(u) && t@ == u@,
{
    match s {
        Some(t) => Some(t.clone()),
        None => None,
    }
}

/// Extracts the authorship claims of one manifest node.
#[verifier::loop_isolation(false)]
pub fn extract_claims(node: &TreeValue) -> (r: Option<Claims>)
    ensures
        r is Some <==> spec_claims(*node) is Some,
        r matches Some(c) ==> spec_claims(*node) == Some(c@),
{
    let mut tool: Option<String> = cloned_text(node.text_field("claim_generator"));
    if let Some(info) = node.get("claim_generator_info") {
        if let Some(nm) = info.get("name") {
            tool = cloned_text(nm.as_text());
        }
        if let Some(ver) = info.get("version") {
            tool = match tool {
                Some(t) => {
                    let mut t2 = t;
                    let ghost t0: Seq<char> = t2@;
                    t2.append(" ");
                    match ver.as_text() {
                        Some(vs) => {
                            t2.append(vs.as_str());
                        },
                        None => {},
                    }
                    proof {
                        assert(t2@ =~= t0 + " "@ + spec_version_text(*ver));
                    }
                    Some(t2)
                },
                None => None,
            };
        }
    }
    assert(view_opt_text(tool) == spec_tool(*node));

    let mut creator: Option<String> = None;
    let mut title: Option<String> = None;
    if let Some(assertions) = node.get("assertions") {
        if let Some(arr) = assertions.as_array() {
            let n = arr.len();
            let mut i: usize = 0;
            while i < n
                invariant
                    0 <= i <= n,
                    view_opt_text(creator) == spec_creator_upto(arr@, i as int),
                    view_opt_text(title) == spec_title_upto(arr@, i as int),
                decreases n - i,
            {
                let a = &arr[i];
                if let Some(label) = a.text_field("label") {
                    let is_creative = str_contains(label.as_str(), "creativeWork");
                    let is_creator = str_contains(label.as_str(), "creator");
                    if is_creative || is_creator {
                        if let Some(data) = a.get("data") {
                            if let Some(author) = data.get("author") {
                                match author.as_array() {
                                    Some(items) => {
                                        if items.len() > 0 {
                                            let first = &items[0];
                                            creator = cloned_text(first.text_field("name"));
                                        }
                                    },
                                    None => {
                                        if let Some(nm) = author.get("name") {
                                            creator = cloned_text(nm.as_text());
                                        }
                                    },
                                }
                            }
                        }
                    }
                    if is_creative {
                        if let Some(data) = a.get("data") {
                            if let Some(t) = data.text_field("name") {
                                title = Some(t.clone());
                            }
                        }
                    }
                }
                i = i + 1;
            }
        }
    }
    assert(view_opt_text(creator) == spec_creator(*node));
    assert(view_opt_text(title) == spec_title(*node));

    let mut date: Option<String> = None;
    if let Some(md) = node.get("metadata") {
        if let Some(d) = md.text_field("dateTime") {
            date = Some(d.clone());
        }
    }
    if date.is_none() {
        if let Some(sig) = node.get("signature_info") {
            if let Some(t) = sig.text_field("time") {
                date = Some(t.clone());
            }
        }
    }
    assert(view_opt_text(date) == spec_date(*node));

    if creator.is_some() || tool.is_some() || date.is_some() || title.is_some() {
        Some(Claims { creator, tool, date, title })
    } else {
        None
    }
}

} // verus!
