//! Status classification: turns the inconsistent failure signals of a
//! manifest node into exactly one status code. An explicit failure signal
//! always overrides mere presence of a claim.

use vstd::prelude::*;
use crate::tree::{TreeValue, spec_get, spec_as_array, spec_text_field};
use crate::text::{spec_contains, str_contains};
use crate::result::StatusCode;

verus! {

/// Failure signal carried by one validation-status record, if any: a `code`
/// string containing "expired" beats one containing "invalid" or "failed".
pub open spec fn spec_record_signal(rec: TreeValue) -> Option<StatusCode> {
    match spec_text_field(rec, "code"@) {
        Some(code) => if spec_contains(code, "expired"@) {
            Some(StatusCode::Expired)
        } else if spec_contains(code, "invalid"@) || spec_contains(code, "failed"@) {
            Some(StatusCode::Invalid)
        } else {
            None
        },
        None => None,
    }
}

/// First failure signal among `records[i..]`, scanning forward.
pub open spec fn spec_scan_from(records: Seq<TreeValue>, i: int) -> Option<StatusCode>
    decreases records.len() - i,
{
    if i < 0 || i >= records.len() {
        None
    } else {
        match spec_record_signal(records[i]) {
            Some(s) => Some(s),
            None => spec_scan_from(records, i + 1),
        }
    }
}

/// Failure signal of the node's `validation_status` array, if any.
pub open spec fn spec_validation_signal(node: TreeValue) -> Option<StatusCode> {
    match spec_get(node, "validation_status"@) {
        Some(vs) => match spec_as_array(vs) {
            Some(records) => spec_scan_from(records, 0),
            None => None,
        },
        None => None,
    }
}

/// Explicitly failed signature: `signature_info.validated` is boolean false.
pub open spec fn spec_signature_failed(node: TreeValue) -> bool {
    match spec_get(node, "signature_info"@) {
        Some(sig) => spec_get(sig, "validated"@) == Some(TreeValue::Bool(false)),
        None => false,
    }
}

/// Status of a manifest node, first rule that applies wins: a failure signal
/// in `validation_status`; an explicitly failed signature; presence of
/// `claim_generator` or `assertions` (evidence of a claim); else no data.
pub open spec fn spec_classify(node: TreeValue) -> StatusCode {
    match spec_validation_signal(node) {
        Some(s) => s,
        None => if spec_signature_failed(node) {
            StatusCode::Invalid
        } else if spec_get(node, "claim_generator"@) is Some || spec_get(node, "assertions"@) is Some {
            StatusCode::Valid
        } else {
            StatusCode::NoData
        },
    }
}

/// Scans `validation_status` for the first record with a failing code.
#[verifier::loop_isolation(false)]
fn validation_signal(node: &TreeValue) -> (r: Option<StatusCode>)
    ensures
        r == spec_validation_signal(*node),
{
    if let Some(vs) = node.get("validation_status") {
        if let Some(records) = vs.as_array() {
            let n = records.len();
            let mut i: usize = 0;
            while i < n
                invariant
                    0 <= i <= n,
                    spec_scan_from(records@, 0) == spec_scan_from(records@, i as int),
                decreases n - i,
            {
                let rec = &records[i];
                if let Some(code) = rec.text_field("code") {
                    if str_contains(code.as_str(), "expired") {
                        return Some(StatusCode::Expired);
                    }
                    if str_contains(code.as_str(), "invalid") || str_contains(code.as_str(), "failed") {
                        return Some(StatusCode::Invalid);
                    }
                }
                i = i + 1;
            }
            return None;
        }
        return None;
    }
    None
}

/// Classifies the validation status of one manifest node.
pub fn classify(node: &TreeValue) -> (r: StatusCode)
    ensures
        r == spec_classify(*node),
{
    if let Some(signal) = validation_signal(node) {
        return signal;
    }
    if let Some(sig) = node.get("signature_info") {
        if let Some(validated) = sig.get("validated") {
            if let TreeValue::Bool(b) = validated {
                if !*b {
                    return StatusCode::Invalid;
                }
            }
        }
    }
    if node.get("claim_generator").is_some() || node.get("assertions").is_some() {
        return StatusCode::Valid;
    }
    StatusCode::NoData
}

} // verus!
