//! The untyped JSON-like tree that a manifest takes after parsing, with
//! total, never-failing accessors: a missing key or a wrong-shaped value
//! yields "absent", never an error.

use vstd::prelude::*;

verus! {

/// An untyped JSON-like value. Numeric values are carried only as a marker:
/// no extractor reads them.
#[derive(Debug)]
pub enum TreeValue {
    Null,
    Bool(bool),
    Number,
    Text(String),
    Array(Vec<TreeValue>),
    Object(Vec<(String, TreeValue)>),
}

/// First value bound to `key` among `entries[i..]`, searching forward.
pub open spec fn lookup_from(entries: Seq<(String, TreeValue)>, key: Seq<char>, i: int) -> Option<TreeValue>
    decreases entries.len() - i,
{
    if i < 0 || i >= entries.len() {
        None
    } else if entries[i].0@ == key {
        Some(entries[i].1)
    } else {
        lookup_from(entries, key, i + 1)
    }
}

/// The value bound to `key`, if `v` is an object that contains it.
pub open spec fn spec_get(v: TreeValue, key: Seq<char>) -> Option<TreeValue> {
    match v {
        TreeValue::Object(entries) => lookup_from(entries@, key, 0),
        _ => None,
    }
}

/// The string content of `v`, if it is a text node.
pub open spec fn spec_as_text(v: TreeValue) -> Option<Seq<char>> {
    match v {
        TreeValue::Text(s) => Some(s@),
        _ => None,
    }
}

/// The elements of `v`, if it is an array node.
pub open spec fn spec_as_array(v: TreeValue) -> Option<Seq<TreeValue>> {
    match v {
        TreeValue::Array(items) => Some(items@),
        _ => None,
    }
}

/// The string bound to `key` in `v`: absent when the key is missing or its
/// value is not text.
pub open spec fn spec_text_field(v: TreeValue, key: Seq<char>) -> Option<Seq<char>> {
    match spec_get(v, key) {
        Some(f) => spec_as_text(f),
        None => None,
    }
}

impl TreeValue {
    /// Field lookup that never fails: absent on a missing key or a non-object.
    #[verifier::loop_isolation(false)]
    pub fn get<'a>(&'a self, key: &str) -> (r: Option<&'a TreeValue>)
        ensures
            r is Some <==> spec_get(*self, key@) is Some,
            r matches Some(t) ==> spec_get(*self, key@) == Some(*t),
    {
        match self {
            TreeValue::Object(entries) => {
                let key_s: String = key.to_owned();
                let n = entries.len();
                let mut i: usize = 0;
                while i < n
                    invariant
                        n == entries@.len(),
                        0 <= i <= n,
                        key_s@ == key@,
                        lookup_from(entries@, key@, 0) == lookup_from(entries@, key@, i as int),
                    decreases n - i,
                {
                    let pair = &entries[i];
                    if pair.0 == key_s {
                        return Some(&pair.1);
                    }
                    i = i + 1;
                }
                None
            },
            _ => None,
        }
    }

    /// The string content of this node, if it is text.
    pub fn as_text(&self) -> (r: Option<&String>)
        ensures
            r is Some <==> spec_as_text(*self) is Some,
            r matches Some(s) ==> spec_as_text(*self) == Some(s@),
    {
        match self {
            TreeValue::Text(s) => Some(s),
            _ => None,
        }
    }

    /// The elements of this node, if it is an array.
    pub fn as_array(&self) -> (r: Option<&Vec<TreeValue>>)
        ensures
            r is Some <==> spec_as_array(*self) is Some,
            r matches Some(items) ==> spec_as_array(*self) == Some(items@),
    {
        match self {
            TreeValue::Array(items) => Some(items),
            _ => None,
        }
    }

    /// Whether this node is an object.
    pub fn is_object(&self) -> (r: bool)
        ensures
            r == (self is Object),
    {
        match self {
            TreeValue::Object(_) => true,
            _ => false,
        }
    }

    /// The string bound to `key`: absent when the key is missing or its
    /// value is not text.
    pub fn text_field<'a>(&'a self, key: &str) -> (r: Option<&'a String>)
        ensures
            r is Some <==> spec_text_field(*self, key@) is Some,
            r matches Some(s) ==> spec_text_field(*self, key@) == Some(s@),
    {
        match self.get(key) {
            Some(f) => f.as_text(),
            None => None,
        }
    }
}

} // verus!
