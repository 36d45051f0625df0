//! Discovery: reading the source cluster's alias listing.
//!
//! The alias listing arrives as a JSON object mapping each index name to an
//! object whose `aliases` member lists that index's aliases. Discovery turns
//! it into the index set and the alias map of a run: index names beginning
//! with `.` mark system indices and are excluded outright, before their
//! content is even inspected; every other entry must carry an `aliases`
//! object, and an index with at least one alias contributes its first one to
//! the alias map.

use vstd::prelude::*;
use vstd::string::StrSliceExecFns;
use crate::json::{Json, obj_lookup};

verus! {

/// An index name that begins with `.` names a system/internal index.
pub open spec fn internal_name(s: Seq<char>) -> bool {
    s.len() > 0 && s[0] == '.'
}

fn is_internal_name(s: &String) -> (r: bool)
    ensures
        r == internal_name(s@),
{
    let sl = s.as_str();
    if sl.is_empty() {
        false
    } else {
        sl.get_char(0) == '.'
    }
}

/// The alias names of one listing entry: defined only when the entry is an
/// object whose `aliases` member is itself an object, and then equal to that
/// object's keys in order.
pub open spec fn spec_alias_names(v: Json) -> Option<Seq<String>> {
    match v {
        Json::Obj(g) => match obj_lookup(g@, "aliases"@) {
            Some(a) => match a {
                Json::Obj(names) => Some(names@.map_values(|p: (String, Json)| p.0)),
                _ => None,
            },
            _ => None,
        },
        _ => None,
    }
}

/// What Discovery makes of a listing's members, taken in order: `None` when
/// some non-internal entry lacks the expected `aliases` object; otherwise the
/// index names (internal ones excluded) paired with the alias map, which
/// holds each aliased index's first alias.
pub open spec fn spec_discover_entries(f: Seq<(String, Json)>) -> Option<
    (Seq<String>, Seq<(String, String)>),
>
    decreases f.len(),
{
    if f.len() == 0 {
        Some((Seq::empty(), Seq::empty()))
    } else {
        match spec_discover_entries(f.drop_last()) {
            None => None,
            Some(acc) => {
                let k = f.last().0;
                if internal_name(k@) {
                    Some(acc)
                } else {
                    match spec_alias_names(f.last().1) {
                        None => None,
                        Some(names) => Some(
                            (
                                acc.0.push(k),
                                if names.len() > 0 {
                                    acc.1.push((k, names[0]))
                                } else {
                                    acc.1
                                },
                            ),
                        ),
                    }
                }
            },
        }
    }
}

/// What Discovery makes of a whole listing document: defined only when the
/// document is a JSON object.
pub open spec fn spec_discovery(j: Json) -> Option<(Seq<String>, Seq<(String, String)>)> {
    match j {
        Json::Obj(f) => spec_discover_entries(f@),
        _ => None,
    }
}

proof fn lemma_discover_none_extends(f: Seq<(String, Json)>, i: int)
    requires
        0 <= i <= f.len(),
        spec_discover_entries(f.subrange(0, i)) is None,
    ensures
        spec_discover_entries(f) is None,
    decreases f.len() - i,
{
    if i == f.len() {
        assert(f.subrange(0, i) =~= f);
    } else {
        assert(f.subrange(0, i + 1).drop_last() =~= f.subrange(0, i));
        lemma_discover_none_extends(f, i + 1);
    }
}

fn alias_names(v: Json) -> (r: Option<Vec<String>>)
    ensures
        match spec_alias_names(v) {
            Some(names) => r matches Some(out) && out@ == names,
            None => r is None,
        },
{
    match v {
        Json::Obj(mut g) => {
            let key: String = "aliases".to_owned();
            match crate::json::obj_take(&mut g, &key) {
                Some(Json::Obj(pairs)) => {
                    let mut out: Vec<String> = Vec::new();
                    let mut i: usize = 0;
                    while i < pairs.len()
                        invariant
                            0 <= i <= pairs@.len(),
                            out@.len() == i,
                            forall|j: int| 0 <= j < i ==> out@[j] == pairs@[j].0,
                        decreases pairs@.len() - i,
                    {
                        let name = pairs[i].0.clone();
                        out.push(name);
                        i += 1;
                    }
                    proof {
                        assert(out@ =~= pairs@.map_values(|p: (String, Json)| p.0));
                    }
                    Some(out)
                },
                _ => None,
            }
        },
        _ => None,
    }
}

/// Splits an alias listing into the index set and the alias map.
///
/// Returns `None` exactly when the listing does not have the expected shape,
/// which Discovery treats as a decode failure; internal index names are
/// skipped before any shape check, so their content never matters.
#[verifier::loop_isolation(false)]
pub fn discover(j: Json) -> (r: Option<(Vec<String>, Vec<(String, String)>)>)
    ensures
        match spec_discovery(j) {
            Some(d) => r matches Some(p) && p.0@ == d.0 && p.1@ == d.1,
            None => r is None,
        },
{
    match j {
        Json::Obj(mut f) => {
            let ghost orig = f@;
            proof {
                assert(spec_discovery(j) == spec_discover_entries(orig));
            }
            let n_entries: usize = f.len();
            proof {
                assert(orig.len() == n_entries as int);
            }
            let mut indices: Vec<String> = Vec::new();
            let mut aliases: Vec<(String, String)> = Vec::new();
            let mut i: usize = 0;
            while f.len() > 0
                invariant
                    orig.len() <= usize::MAX,
                    i + f@.len() == orig.len(),
                    f@ == orig.subrange(i as int, orig.len() as int),
                    spec_discover_entries(orig.subrange(0, i as int)) == Some(
                        (indices@, aliases@),
                    ),
                decreases f@.len(),
            {
                let (k, v) = f.remove(0);
                proof {
                    assert(k == orig[i as int].0);
                    assert(v == orig[i as int].1);
                    assert(orig.subrange(0, i + 1).drop_last() =~= orig.subrange(0, i as int));
                    assert(orig.subrange(0, i + 1).last() == orig[i as int]);
                    assert(f@ =~= orig.subrange(i + 1, orig.len() as int));
                }
                if !is_internal_name(&k) {
                    match alias_names(v) {
                        None => {
                            proof {
                                assert(spec_discover_entries(orig.subrange(0, i + 1)) is None);
                                lemma_discover_none_extends(orig, i + 1);
                            }
                            return None;
                        },
                        Some(mut names) => {
                            if names.len() > 0 {
                                let alias = names.remove(0);
                                aliases.push((k.clone(), alias));
                            }
                            indices.push(k);
                        },
                    }
                }
                proof {
                    assert(i + 1 + f@.len() == orig.len());
                    assert(spec_discover_entries(orig.subrange(0, i + 1)) == Some(
                        (indices@, aliases@),
                    ));
                }
                i += 1;
            }
            proof {
                assert(orig.subrange(0, i as int) =~= orig);
            }
            Some((indices, aliases))
        },
        _ => None,
    }
}

/// An alias-map entry is justified by the listing: its key is some listing
/// entry's index name, that entry has at least one alias, and the mapped
/// alias is that entry's first alias name.
pub open spec fn alias_entry_from(f: Seq<(String, Json)>, entry: (String, String)) -> bool {
    exists|i: int|
        {
            &&& 0 <= i < f.len()
            &&& (#[trigger] f[i]).0 == entry.0
            &&& spec_alias_names(f[i].1) matches Some(names)
            &&& names.len() > 0
            &&& entry.1 == names[0]
        }
}

/// What Discovery promises of its output: the index set holds no internal
/// name and every non-internal listing key; the alias map's keys all come
/// from the index set (so an index with zero aliases has no entry); and each
/// alias map entry pairs an index having at least one alias with one of that
/// index's own alias names.
pub proof fn lemma_discovery_members(f: Seq<(String, Json)>)
    requires
        spec_discover_entries(f) is Some,
    ensures
        forall|i: int|
            0 <= i < spec_discover_entries(f).unwrap().0.len() ==> !internal_name(
                (#[trigger] spec_discover_entries(f).unwrap().0[i])@,
            ),
        forall|i: int|
            0 <= i < f.len() && !internal_name((#[trigger] f[i]).0@) ==> spec_discover_entries(
                f,
            ).unwrap().0.contains(f[i].0),
        forall|j: int|
            0 <= j < spec_discover_entries(f).unwrap().1.len() ==> spec_discover_entries(
                f,
            ).unwrap().0.contains((#[trigger] spec_discover_entries(f).unwrap().1[j]).0),
        forall|j: int|
            0 <= j < spec_discover_entries(f).unwrap().1.len() ==> alias_entry_from(
                f,
                #[trigger] spec_discover_entries(f).unwrap().1[j],
            ),
    decreases f.len(),
{
    if f.len() > 0 {
        lemma_discovery_members(f.drop_last());
        let prev = spec_discover_entries(f.drop_last()).unwrap();
        let cur = spec_discover_entries(f).unwrap();
        assert forall|i: int| 0 <= i < f.len() && !internal_name((#[trigger] f[i]).0@) implies cur
            .0.contains(f[i].0) by {
            if i < f.len() - 1 {
                assert(f.drop_last()[i] == f[i]);
                assert(prev.0.contains(f[i].0));
                let w = choose|w: int| 0 <= w < prev.0.len() && prev.0[w] == f[i].0;
                assert(cur.0[w] == f[i].0);
            } else {
                assert(cur.0.last() == f[i].0);
            }
        }
        assert forall|j: int| 0 <= j < cur.1.len() implies cur.0.contains(
            (#[trigger] cur.1[j]).0,
        ) by {
            if j < prev.1.len() {
                let w = choose|w: int| 0 <= w < prev.0.len() && prev.0[w] == prev.1[j].0;
                assert(cur.0[w] == cur.1[j].0);
            } else {
                assert(cur.0.last() == cur.1[j].0);
            }
        }
        assert forall|j: int| 0 <= j < cur.1.len() implies alias_entry_from(
            f,
            #[trigger] cur.1[j],
        ) by {
            if j < prev.1.len() {
                assert(alias_entry_from(f.drop_last(), prev.1[j]));
                let w = choose|w: int|
                    {
                        &&& 0 <= w < f.drop_last().len()
                        &&& (#[trigger] f.drop_last()[w]).0 == prev.1[j].0
                        &&& spec_alias_names(f.drop_last()[w].1) matches Some(names)
                        &&& names.len() > 0
                        &&& prev.1[j].1 == names[0]
                    };
                assert(f[w] == f.drop_last()[w]);
            } else {
                let w = f.len() - 1;
                assert((#[trigger] f[w]).0 == cur.1[j].0 && spec_alias_names(f[w].1) is Some);
            }
        }
    }
}

} // verus!
