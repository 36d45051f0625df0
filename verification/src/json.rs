//! A plain JSON value model.
//!
//! The migration logic inspects and rebuilds JSON documents (alias listings,
//! index schemas, request payloads). This module holds the value type those
//! documents are represented with, together with lookup and removal
//! operations on objects, each specified against a recursive spec-level
//! lookup function. Object members keep their order; a number is carried as
//! its literal text, which this logic never interprets.

use vstd::prelude::*;

verus! {

/// A JSON document: the shape of every body this library reads or builds.
#[derive(Debug, PartialEq, Eq)]
pub enum Json {
    Null,
    Bool(bool),
    /// A number, kept as the literal text it was written with.
    Num(String),
    Str(String),
    Arr(Vec<Json>),
    Obj(Vec<(String, Json)>),
}

/// The value of the first member of `fields` whose key reads `key`, if any.
pub open spec fn obj_lookup(fields: Seq<(String, Json)>, key: Seq<char>) -> Option<Json>
    decreases fields.len(),
{
    if fields.len() == 0 {
        None
    } else if fields[0].0@ == key {
        Some(fields[0].1)
    } else {
        obj_lookup(fields.drop_first(), key)
    }
}

/// A lookup answers from the first matching key.
pub proof fn lemma_obj_lookup_at(fields: Seq<(String, Json)>, key: Seq<char>, i: int)
    requires
        0 <= i < fields.len(),
        fields[i].0@ == key,
        forall|j: int| 0 <= j < i ==> fields[j].0@ != key,
    ensures
        obj_lookup(fields, key) == Some(fields[i].1),
    decreases i,
{
    if i > 0 {
        lemma_obj_lookup_at(fields.drop_first(), key, i - 1);
    }
}

/// A lookup over members none of whose keys match yields nothing.
pub proof fn lemma_obj_lookup_none(fields: Seq<(String, Json)>, key: Seq<char>)
    requires
        forall|j: int| 0 <= j < fields.len() ==> fields[j].0@ != key,
    ensures
        obj_lookup(fields, key) is None,
    decreases fields.len(),
{
    if fields.len() > 0 {
        lemma_obj_lookup_none(fields.drop_first(), key);
    }
}

/// Removing a member whose key differs from `key` leaves the lookup of `key`
/// unchanged.
pub proof fn lemma_obj_lookup_remove_other(fields: Seq<(String, Json)>, i: int, key: Seq<char>)
    requires
        0 <= i < fields.len(),
        fields[i].0@ != key,
    ensures
        obj_lookup(fields.remove(i), key) == obj_lookup(fields, key),
    decreases fields.len(),
{
    if i == 0 {
        assert(fields.remove(0) =~= fields.drop_first());
    } else {
        if fields[0].0@ != key {
            assert(fields.remove(i).drop_first() =~= fields.drop_first().remove(i - 1));
            lemma_obj_lookup_remove_other(fields.drop_first(), i - 1, key);
        } else {
            assert(fields.remove(i)[0] == fields[0]);
        }
    }
}

/// Removes and returns the value of the first member of `fields` whose key
/// equals `key`, leaving the remaining members in order.
pub fn obj_take(fields: &mut Vec<(String, Json)>, key: &String) -> (r: Option<Json>)
    ensures
        r == obj_lookup(old(fields)@, key@),
        r is Some ==> exists|i: int|
            {
                &&& 0 <= i < old(fields)@.len()
                &&& old(fields)@[i].0@ == key@
                &&& final(fields)@ == old(fields)@.remove(i)
            },
        r is None ==> final(fields)@ == old(fields)@,
        forall|k2: Seq<char>|
            k2 != key@ ==> #[trigger] obj_lookup(final(fields)@, k2) == obj_lookup(
                old(fields)@,
                k2,
            ),
{
    let mut i: usize = 0;
    while i < fields.len()
        invariant
            0 <= i <= fields@.len(),
            fields@ == old(fields)@,
            forall|j: int| 0 <= j < i ==> fields@[j].0@ != key@,
        decreases fields@.len() - i,
    {
        if fields[i].0.eq(key) {
            proof {
                lemma_obj_lookup_at(fields@, key@, i as int);
            }
            let ghost pre = fields@;
            let entry = fields.remove(i);
            proof {
                assert forall|k2: Seq<char>| k2 != key@ implies #[trigger] obj_lookup(
                    fields@,
                    k2,
                ) == obj_lookup(pre, k2) by {
                    lemma_obj_lookup_remove_other(pre, i as int, k2);
                }
            }
            return Some(entry.1);
        }
        i += 1;
    }
    proof {
        lemma_obj_lookup_none(fields@, key@);
    }
    None
}

} // verus!
