//! Laws of the library, stated and proved over the same spec functions that
//! the executable functions' contracts use.

use vstd::prelude::*;
use crate::tree::{TreeValue, spec_get, spec_as_array, spec_text_field};
use crate::text::spec_contains;
use crate::result::StatusCode;
use crate::status::{spec_record_signal, spec_scan_from, spec_classify};
use crate::claims::{spec_creator, spec_tool, spec_date, spec_title, spec_claims};
use crate::history::{spec_declared_history, spec_history};
use crate::locate::spec_resolve;
use crate::render::spec_render;
use crate::parse::json_tree;
use crate::assemble::{spec_parse_manifest, spec_error_result};

verus! {

/// The pipeline is total on manifest text: an unparseable text yields
/// exactly the error result, and every outcome — success or failure —
/// preserves the original text verbatim in `raw_manifest`.
pub proof fn lemma_parse_totality(text: Seq<char>)
    ensures
        json_tree(text) is None ==> spec_parse_manifest(text) == spec_error_result(text),
        spec_parse_manifest(text).raw_manifest == Some(text),
{
}

/// The pipeline is deterministic: two runs on the same manifest text yield
/// byte-identical serialized results.
pub proof fn lemma_pipeline_idempotent(text: Seq<char>, out1: Seq<char>, out2: Seq<char>)
    requires
        out1 == spec_render(spec_parse_manifest(text)),
        out2 == spec_render(spec_parse_manifest(text)),
    ensures
        out1 == out2,
{
}

/// A scan that meets no failure signal before position `i` reaches `i`.
proof fn lemma_scan_reaches(records: Seq<TreeValue>, i: int)
    requires
        0 <= i < records.len(),
        forall|j: int| 0 <= j < i ==> spec_record_signal(records[j]) is None,
    ensures
        spec_scan_from(records, 0) == spec_scan_from(records, i),
    decreases i,
{
    if i > 0 {
        lemma_scan_reaches(records, i - 1);
    }
}

/// Status precedence: a node carrying an expired-coded validation-status
/// entry classifies as expired — not valid — even when a `claim_generator`
/// is present, provided no earlier entry already signals a failure of its
/// own (the scan takes the first failure signal in declared order).
pub proof fn lemma_status_precedence(
    node: TreeValue,
    vs: TreeValue,
    records: Seq<TreeValue>,
    code: Seq<char>,
    i: int,
)
    requires
        spec_get(node, "validation_status"@) == Some(vs),
        spec_as_array(vs) == Some(records),
        0 <= i < records.len(),
        spec_text_field(records[i], "code"@) == Some(code),
        spec_contains(code, "expired"@),
        forall|j: int| 0 <= j < i ==> spec_record_signal(records[j]) is None,
        spec_get(node, "claim_generator"@) is Some,
    ensures
        spec_classify(node) == StatusCode::Expired,
{
    lemma_scan_reaches(records, i);
    assert(spec_record_signal(records[i]) == Some(StatusCode::Expired));
}

/// Locator fallback: a store with no `active_manifest` key resolves to the
/// store itself.
pub proof fn lemma_locator_fallback(store: TreeValue)
    requires
        spec_get(store, "active_manifest"@) is None,
    ensures
        spec_resolve(store) == store,
{
}

/// Absent claims: a node where no creator, tool, date or title resolves
/// yields no claims value at all, not an empty one.
pub proof fn lemma_absent_claims(node: TreeValue)
    requires
        spec_creator(node) is None,
        spec_tool(node) is None,
        spec_date(node) is None,
        spec_title(node) is None,
    ensures
        spec_claims(node) is None,
{
}

/// History is empty only when there is no creator-tool information at all:
/// no declared events and no `claim_generator` string.
pub proof fn lemma_history_empty(node: TreeValue)
    requires
        spec_history(node).len() == 0,
    ensures
        spec_declared_history(node).len() == 0,
        spec_text_field(node, "claim_generator"@) is None,
{
}

} // verus!
