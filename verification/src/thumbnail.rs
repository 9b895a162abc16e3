//! Thumbnail extraction: the first inline preview image found in the node's
//! assertions, as a base64 payload — either the assertion's data itself, or
//! the tail of an inline `data:image` URL. External resource references
//! (data with an `identifier`) are skipped on the data route by design, not
//! an error; the URL fallback is still consulted for such an assertion.

use vstd::prelude::*;
use crate::tree::{TreeValue, spec_get, spec_as_array, spec_as_text, spec_text_field};
use crate::text::{spec_contains, spec_starts_with, spec_after_comma, str_contains, str_starts_with, after_comma};
use crate::result::view_opt_text;

verus! {

/// The base64 payload of the assertion's `url` field, when that is a
/// `data:image` URL containing a comma.
pub open spec fn spec_url_thumb(a: TreeValue) -> Option<Seq<char>> {
    match spec_text_field(a, "url"@) {
        Some(url) => if spec_starts_with(url, "data:image"@) {
            spec_after_comma(url)
        } else {
            None
        },
        None => None,
    }
}

/// The thumbnail contributed by one assertion: for a label containing a
/// fragment "thumbnail", the data route is skipped when the data carries an
/// `identifier` (an external resource reference), and the `url` fallback is
/// still consulted; otherwise the data itself when it is text, else whatever
/// the `url` field yields.
pub open spec fn spec_assertion_thumb(a: TreeValue) -> Option<Seq<char>> {
    match spec_text_field(a, "label"@) {
        Some(label) => if spec_contains(label, "thumbnail"@) {
            match spec_get(a, "data"@) {
                Some(data) => if spec_get(data, "identifier"@) is Some {
                    spec_url_thumb(a)
                } else {
                    match spec_as_text(data) {
                        Some(s) => Some(s),
                        None => spec_url_thumb(a),
                    }
                },
                None => spec_url_thumb(a),
            }
        } else {
            None
        },
        None => None,
    }
}

/// First thumbnail among assertions `arr[i..]`, scanning forward.
pub open spec fn spec_thumb_from(arr: Seq<TreeValue>, i: int) -> Option<Seq<char>>
    decreases arr.len() - i,
{
    if i < 0 || i >= arr.len() {
        None
    } else {
        match spec_assertion_thumb(arr[i]) {
            Some(t) => Some(t),
            None => spec_thumb_from(arr, i + 1),
        }
    }
}

/// The node's thumbnail: the first satisfying match; multiple thumbnails
/// are not aggregated.
pub open spec fn spec_thumbnail(node: TreeValue) -> Option<Seq<char>> {
    match spec_get(node, "assertions"@) {
        Some(a) => match spec_as_array(a) {
            Some(arr) => spec_thumb_from(arr, 0),
            None => None,
        },
        None => None,
    }
}

/// Reads the base64 payload of an inline data URL, if the assertion has one.
fn url_thumb(a: &TreeValue) -> (r: Option<String>)
    ensures
        view_opt_text(r) == spec_url_thumb(*a),
{
    if let Some(url) = a.text_field("url") {
        if str_starts_with(url.as_str(), "data:image") {
            return after_comma(url.as_str());
        }
        return None;
    }
    None
}

/// Reads the thumbnail contributed by one assertion, if any.
fn assertion_thumb(a: &TreeValue) -> (r: Option<String>)
    ensures
        view_opt_text(r) == spec_assertion_thumb(*a),
{
    if let Some(label) = a.text_field("label") {
        if str_contains(label.as_str(), "thumbnail") {
            if let Some(data) = a.get("data") {
                if data.get("identifier").is_none() {
                    if let Some(s) = data.as_text() {
                        return Some(s.clone());
                    }
                }
            }
            return url_thumb(a);
        }
        return None;
    }
    None
}

/// Extracts the inline preview image of one manifest node.
#[verifier::loop_isolation(false)]
pub fn extract_thumbnail(node: &TreeValue) -> (r: Option<String>)
    ensures
        view_opt_text(r) == spec_thumbnail(*node),
{
    if let Some(assertions) = node.get("assertions") {
        if let Some(arr) = assertions.as_array() {
            let n = arr.len();
            let mut i: usize = 0;
            while i < n
                invariant
                    0 <= i <= n,
                    spec_thumb_from(arr@, 0) == spec_thumb_from(arr@, i as int),
                decreases n - i,
            {
                let found = assertion_thumb(&arr[i]);
                if found.is_some() {
                    return found;
                }
                i = i + 1;
            }
            return None;
        }
        return None;
    }
    None
}

} // verus!
