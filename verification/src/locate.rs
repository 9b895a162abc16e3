//! Manifest locator: resolves the node to operate on from a manifest store.
//! Supports both shapes of input: a store with an `active_manifest`
//! identifier into a `manifests` mapping, and a bare manifest used directly.

use vstd::prelude::*;
use crate::tree::{TreeValue, spec_get, spec_text_field};

verus! {

/// The node to operate on: the entry of `manifests` named by a present
/// string `active_manifest` identifier; the store itself, reinterpreted as a
/// bare manifest, when the identifier is absent, not a string, or does not
/// resolve inside `manifests`.
pub open spec fn spec_resolve(store: TreeValue) -> TreeValue {
    match spec_text_field(store, "active_manifest"@) {
        Some(key) => match spec_get(store, "manifests"@) {
            Some(m) => match spec_get(m, key) {
                Some(node) => node,
                None => store,
            },
            None => store,
        },
        None => store,
    }
}

/// Resolves the active manifest node; always produces a node, never fails.
pub fn resolve<'a>(store: &'a TreeValue) -> (r: &'a TreeValue)
    ensures
        *r == spec_resolve(*store),
{
    if let Some(key) = store.text_field("active_manifest") {
        if let Some(m) = store.get("manifests") {
            if let Some(node) = m.get(key.as_str()) {
                return node;
            }
        }
        return store;
    }
    store
}

} // verus!
