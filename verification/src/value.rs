//! The generic rule-tree value.
//!
//! A rule tree arrives from the external evaluator as a loosely structured
//! value: an ordered string-keyed mapping, an array, a string, or something
//! the resolver has no use for.  The resolver validates the shape it needs
//! while walking the tree; every conversion failure is recoverable, never a
//! cast.

use vstd::prelude::*;

verus! {

/// A structural value produced by evaluating a rule-tree source.
pub enum Value {
    /// An ordered string-keyed mapping.
    Object(Vec<(String, Value)>),
    /// An ordered array.
    Array(Vec<Value>),
    /// A string primitive.
    Str(String),
    /// Any other primitive; opaque to the resolver.
    Other,
}

/// The value of the first field with the given key, if any.
pub open spec fn find_field(fields: Seq<(String, Value)>, key: Seq<char>) -> Option<Value>
    decreases fields.len(),
{
    if fields.len() == 0 {
        None
    } else if fields[0].0@ == key {
        Some(fields[0].1)
    } else {
        find_field(fields.drop_first(), key)
    }
}

/// Every element of the array is a string.
pub open spec fn all_strings(items: Seq<Value>) -> bool {
    forall|i: int| 0 <= i < items.len() ==> items[i] is Str
}

/// The views of an array of strings, in order.
pub open spec fn string_views(items: Seq<Value>) -> Seq<Seq<char>> {
    Seq::new(items.len(), |i: int| items[i]->Str_0@)
}

/// Looks up a field of an object by key, first match wins.
pub fn get_field<'a>(fields: &'a Vec<(String, Value)>, key: &String) -> (r: Option<&'a Value>)
    ensures
        r matches Some(v) ==> find_field(fields@, key@) == Some(*v),
        r is None ==> find_field(fields@, key@) is None,
{
    let mut i: usize = 0;
    proof {
        assert(fields@.skip(0) =~= fields@);
    }
    while i < fields.len()
        invariant
            i <= fields@.len(),
            find_field(fields@, key@) == find_field(fields@.skip(i as int), key@),
        decreases fields@.len() - i,
    {
        if fields[i].0 == *key {
            return Some(&fields[i].1);
        }
        proof {
            assert(fields@.skip(i as int).drop_first() =~= fields@.skip(i as int + 1));
        }
        i = i + 1;
    }
    proof {
        assert(fields@.skip(fields@.len() as int) =~= Seq::<(String, Value)>::empty());
    }
    None
}

/// Converts an array of string values into the strings themselves; fails on
/// the first element that is not a string.
pub fn string_items(items: &Vec<Value>) -> (r: Option<Vec<String>>)
    ensures
        r matches Some(keys) ==> all_strings(items@) && keys.deep_view() == string_views(items@),
        r is None ==> !all_strings(items@),
{
    let mut keys: Vec<String> = Vec::new();
    let mut i: usize = 0;
    while i < items.len()
        invariant
            i <= items@.len(),
            keys@.len() == i,
            forall|j: int| 0 <= j < i ==> items@[j] is Str,
            forall|j: int| 0 <= j < i ==> keys@[j]@ == #[trigger] items@[j]->Str_0@,
        decreases items@.len() - i,
    {
        match &items[i] {
            Value::Str(s) => {
                keys.push(s.clone());
            },
            _ => {
                return None;
            },
        }
        i = i + 1;
    }
    proof {
        assert forall|j: int| 0 <= j < items@.len() implies keys.deep_view()[j]
            == string_views(items@)[j] by {
            assert(keys.deep_view()[j] == keys@[j]@);
        }
        assert(keys.deep_view() =~= string_views(items@));
    }
    Some(keys)
}

} // verus!
