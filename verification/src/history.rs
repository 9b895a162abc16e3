//! History extraction: an ordered list of edit/action events read from the
//! node's assertions, with a single synthesized creation event as fallback
//! when none are declared. Order is the manifest's declared order.

use vstd::prelude::*;
use crate::tree::{TreeValue, spec_get, spec_as_array, spec_text_field};
use crate::text::{spec_contains, str_contains};
use crate::result::{HistoryEvent, SpecHistoryEvent, views_of};
use crate::claims::spec_nested_text;

verus! {

/// The text of `key` in `a`, or `dflt` when missing or not text.
pub open spec fn spec_text_or(a: TreeValue, key: Seq<char>, dflt: Seq<char>) -> Seq<char> {
    match spec_text_field(a, key) {
        Some(s) => s,
        None => dflt,
    }
}

/// The event read from one element of an actions array: the tool is
/// `softwareAgent`, falling back to `digitalSourceType`, then "Unknown".
pub open spec fn spec_event_full(a: TreeValue) -> SpecHistoryEvent {
    SpecHistoryEvent {
        action: spec_text_or(a, "action"@, "unknown"@),
        tool: match spec_text_field(a, "softwareAgent"@) {
            Some(s) => s,
            None => spec_text_or(a, "digitalSourceType"@, "Unknown"@),
        },
        timestamp: spec_text_or(a, "when"@, ""@),
    }
}

/// The event read from a single action object: as above, but without the
/// `digitalSourceType` fallback.
pub open spec fn spec_event_single(a: TreeValue) -> SpecHistoryEvent {
    SpecHistoryEvent {
        action: spec_text_or(a, "action"@, "unknown"@),
        tool: spec_text_or(a, "softwareAgent"@, "Unknown"@),
        timestamp: spec_text_or(a, "when"@, ""@),
    }
}

/// Events read from elements `items[i..]` of one actions array, in order.
pub open spec fn spec_events_from(items: Seq<TreeValue>, i: int) -> Seq<SpecHistoryEvent>
    decreases items.len() - i,
{
    if i < 0 || i >= items.len() {
        Seq::<SpecHistoryEvent>::empty()
    } else {
        seq![spec_event_full(items[i])] + spec_events_from(items, i + 1)
    }
}

/// Events contributed by one assertion: an assertion labelled with a
/// fragment "actions" yields one event per element of `data.actions` when
/// that is an array, else exactly one event from `data` itself when it is
/// an object; anything else contributes nothing.
pub open spec fn spec_assertion_events(a: TreeValue) -> Seq<SpecHistoryEvent> {
    match spec_text_field(a, "label"@) {
        Some(label) => if spec_contains(label, "actions"@) {
            match spec_get(a, "data"@) {
                Some(data) => {
                    let arr = match spec_get(data, "actions"@) {
                        Some(v) => spec_as_array(v),
                        None => None,
                    };
                    match arr {
                        Some(items) => spec_events_from(items, 0),
                        None => if data is Object {
                            seq![spec_event_single(data)]
                        } else {
                            Seq::<SpecHistoryEvent>::empty()
                        },
                    }
                },
                None => Seq::<SpecHistoryEvent>::empty(),
            }
        } else {
            Seq::<SpecHistoryEvent>::empty()
        },
        None => Seq::<SpecHistoryEvent>::empty(),
    }
}

/// Events of assertions `arr[i..]`, concatenated in scan order.
pub open spec fn spec_history_from(arr: Seq<TreeValue>, i: int) -> Seq<SpecHistoryEvent>
    decreases arr.len() - i,
{
    if i < 0 || i >= arr.len() {
        Seq::<SpecHistoryEvent>::empty()
    } else {
        spec_assertion_events(arr[i]) + spec_history_from(arr, i + 1)
    }
}

/// All events declared by the node's assertions.
pub open spec fn spec_declared_history(node: TreeValue) -> Seq<SpecHistoryEvent> {
    match spec_get(node, "assertions"@) {
        Some(a) => match spec_as_array(a) {
            Some(arr) => spec_history_from(arr, 0),
            None => Seq::<SpecHistoryEvent>::empty(),
        },
        None => Seq::<SpecHistoryEvent>::empty(),
    }
}

/// The full history: the declared events; when none are declared and a
/// `claim_generator` string is present, exactly one synthesized event
/// `created` by that tool, timestamped from `metadata.dateTime` when
/// present. Empty only when there is no creator-tool information at all.
pub open spec fn spec_history(node: TreeValue) -> Seq<SpecHistoryEvent> {
    let declared = spec_declared_history(node);
    if declared.len() == 0 {
        match spec_text_field(node, "claim_generator"@) {
            Some(tool) => seq![
                SpecHistoryEvent {
                    action: "created"@,
                    tool: tool,
                    timestamp: match spec_nested_text(node, "metadata"@, "dateTime"@) {
                        Some(d) => d,
                        None => ""@,
                    },
                },
            ],
            None => declared,
        }
    } else {
        declared
    }
}

/// Copies the text of `key` in `a`, or `dflt` when missing or not text.
fn text_field_or(a: &TreeValue, key: &str, dflt: &str) -> (r: String)
    ensures
        r@ == spec_text_or(*a, key@, dflt@),
{
    match a.text_field(key) {
        Some(s) => s.clone(),
        None => dflt.to_owned(),
    }
}

/// Reads one event from an element of an actions array.
fn event_full(a: &TreeValue) -> (r: HistoryEvent)
    ensures
        r@ == spec_event_full(*a),
{
    let action = text_field_or(a, "action", "unknown");
    let tool = match a.text_field("softwareAgent") {
        Some(s) => s.clone(),
        None => text_field_or(a, "digitalSourceType", "Unknown"),
    };
    let timestamp = text_field_or(a, "when", "");
    HistoryEvent { action, tool, timestamp }
}

/// Reads one event from a single action object.
fn event_single(a: &TreeValue) -> (r: HistoryEvent)
    ensures
        r@ == spec_event_single(*a),
{
    let action = text_field_or(a, "action", "unknown");
    let tool = text_field_or(a, "softwareAgent", "Unknown");
    let timestamp = text_field_or(a, "when", "");
    HistoryEvent { action, tool, timestamp }
}

/// Collects the events contributed by one assertion.
#[verifier::loop_isolation(false)]
fn assertion_events(a: &TreeValue) -> (r: Vec<HistoryEvent>)
    ensures
        views_of(r@) == spec_assertion_events(*a),
{
    let mut out: Vec<HistoryEvent> = Vec::new();
    proof {
        assert(views_of(out@) =~= Seq::<SpecHistoryEvent>::empty());
    }
    if let Some(label) = a.text_field("label") {
        if str_contains(label.as_str(), "actions") {
            if let Some(data) = a.get("data") {
                let mut items_opt: Option<&Vec<TreeValue>> = None;
                if let Some(acts) = data.get("actions") {
                    items_opt = acts.as_array();
                }
                match items_opt {
                    Some(items) => {
                        let n = items.len();
                        let mut j: usize = 0;
                        while j < n
                            invariant
                                0 <= j <= n,
                                spec_events_from(items@, 0) == views_of(out@)
                                    + spec_events_from(items@, j as int),
                            decreases n - j,
                        {
                            let ghost prev = views_of(out@);
                            let ev = event_full(&items[j]);
                            out.push(ev);
                            proof {
                                assert(views_of(out@) =~= prev
                                    + seq![spec_event_full(items@[j as int])]);
                                assert(views_of(out@) + spec_events_from(items@, j + 1)
                                    =~= prev + spec_events_from(items@, j as int));
                            }
                            j = j + 1;
                        }
                    },
                    None => {
                        if data.is_object() {
                            let ev = event_single(data);
                            out.push(ev);
                            proof {
                                assert(views_of(out@) =~= seq![spec_event_single(*data)]);
                            }
                        }
                    },
                }
            }
        }
    }
    out
}

/// Collects all events declared by the node's assertions, in scan order.
#[verifier::loop_isolation(false)]
fn declared_history(node: &TreeValue) -> (r: Vec<HistoryEvent>)
    ensures
        views_of(r@) == spec_declared_history(*node),
{
    let mut events: Vec<HistoryEvent> = Vec::new();
    proof {
        assert(views_of(events@) =~= Seq::<SpecHistoryEvent>::empty());
    }
    if let Some(assertions) = node.get("assertions") {
        if let Some(arr) = assertions.as_array() {
            let n = arr.len();
            let mut i: usize = 0;
            while i < n
                invariant
                    0 <= i <= n,
                    spec_history_from(arr@, 0) == views_of(events@)
                        + spec_history_from(arr@, i as int),
                decreases n - i,
            {
                let ghost prev = views_of(events@);
                let mut more = assertion_events(&arr[i]);
                let ghost more_view = views_of(more@);
                events.append(&mut more);
                proof {
                    assert(views_of(events@) =~= prev + more_view);
                    assert(views_of(events@) + spec_history_from(arr@, i + 1)
                        =~= prev + spec_history_from(arr@, i as int));
                }
                i = i + 1;
            }
        }
    }
    events
}

/// Extracts the edit history of one manifest node.
pub fn extract_history(node: &TreeValue) -> (r: Vec<HistoryEvent>)
    ensures
        views_of(r@) == spec_history(*node),
{
    let mut events = declared_history(node);
    if events.len() == 0 {
        proof {
            assert(views_of(events@) =~= Seq::<SpecHistoryEvent>::empty());
            assert(spec_declared_history(*node).len() == 0);
        }
        if let Some(cg) = node.text_field("claim_generator") {
            let tool = cg.clone();
            let mut timestamp: String = "".to_owned();
            if let Some(md) = node.get("metadata") {
                if let Some(d) = md.text_field("dateTime") {
                    timestamp = d.clone();
                }
            }
            let ev = HistoryEvent { action: "created".to_owned(), tool, timestamp };
            events.push(ev);
            proof {
                assert(views_of(events@) =~= spec_history(*node));
            }
        }
    }
    events
}

} // verus!
