//! Containers as lists of named fields, and the lookup of a field by name.
//!
//! Both wire formats hand a reader the same thing: fields in the order in
//! which they were written, where a name may occur more than once and a
//! lookup finds the first field of that name.

use vstd::prelude::*;
use crate::strings::str_eq;

verus! {

/// The value of the first field named `key`, in the order in which the
/// fields were written; `None` where no field has that name.
pub open spec fn first_match<V>(entries: Seq<(Seq<char>, V)>, key: Seq<char>) -> Option<V>
    decreases entries.len(),
{
    if entries.len() == 0 {
        None
    } else if entries[0].0 == key {
        Some(entries[0].1)
    } else {
        first_match(entries.skip(1), key)
    }
}

/// A field appended to a container is found under its name unless an
/// earlier field has that name; lookups of other names are as before.
pub proof fn lemma_first_match_push<V>(
    entries: Seq<(Seq<char>, V)>,
    name: Seq<char>,
    value: V,
    key: Seq<char>,
)
    ensures
        first_match(entries.push((name, value)), key) == (match first_match(entries, key) {
            Some(earlier) => Some(earlier),
            None => if name == key {
                Some(value)
            } else {
                None
            },
        }),
    decreases entries.len(),
{
    let longer = entries.push((name, value));
    if entries.len() == 0 {
        assert(longer.skip(1) =~= Seq::<(Seq<char>, V)>::empty());
    } else {
        assert(longer.skip(1) =~= entries.skip(1).push((name, value)));
        if entries[0].0 != key {
            lemma_first_match_push(entries.skip(1), name, value, key);
        }
    }
}

/// The fields of a container as mathematical values, in their order.
pub open spec fn named<V: View>(entries: Seq<(String, V)>) -> Seq<(Seq<char>, V::V)> {
    entries.map_values(|entry: (String, V)| (entry.0@, entry.1@))
}

/// Whether the field at index `i` is the first one named `key`.
pub open spec fn is_first_named<V>(entries: Seq<(Seq<char>, V)>, key: Seq<char>, i: int) -> bool {
    &&& 0 <= i < entries.len()
    &&& entries[i].0 == key
    &&& forall|j: int| 0 <= j < i ==> (#[trigger] entries[j]).0 != key
}

/// Finds the first field named `key`: its index, or `None` where no field
/// has that name.
pub fn find_first<V: View>(entries: &Vec<(String, V)>, key: &str) -> (found: Option<usize>)
    ensures
        match found {
            Some(i) => {
                &&& is_first_named(named(entries@), key@, i as int)
                &&& first_match(named(entries@), key@) == Some(entries[i as int].1@)
            },
            None => {
                &&& forall|j: int| 0 <= j < entries.len() ==> (#[trigger] named(entries@)[j]).0 != key@
                &&& first_match(named(entries@), key@) is None
            },
        },
{
    let ghost fields = named(entries@);
    assert(fields.skip(0) =~= fields);
    let mut i: usize = 0;
    while i < entries.len()
        invariant
            i <= entries.len(),
            fields == named(entries@),
            forall|j: int| 0 <= j < i ==> (#[trigger] fields[j]).0 != key@,
            first_match(fields, key@) == first_match(fields.skip(i as int), key@),
        decreases entries.len() - i,
    {
        assert(fields.skip(i as int)[0] == fields[i as int]);
        if str_eq(entries[i].0.as_str(), key) {
            return Some(i);
        }
        assert(fields.skip(i as int).skip(1) =~= fields.skip(i + 1));
        i += 1;
    }
    None
}

/// A decoded container, as far as a reader of click events needs it: typed
/// lookups by field name. A field that holds a value of another type than
/// the one asked for counts as absent.
pub trait FieldSource {
    /// The string that a lookup of `key` finds.
    spec fn string_at(&self, key: Seq<char>) -> Option<Seq<char>>;

    /// The 32-bit integer that a lookup of `key` finds.
    spec fn int_at(&self, key: Seq<char>) -> Option<i32>;

    fn read_string(&self, key: &str) -> (found: Option<&str>)
        ensures
            match found {
                Some(text) => self.string_at(key@) == Some(text@),
                None => self.string_at(key@) is None,
            },
    ;

    fn read_int(&self, key: &str) -> (found: Option<i32>)
        ensures
            found == self.int_at(key@),
    ;
}

} // verus!
