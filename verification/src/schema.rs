//! Schema Replication: sanitizing a fetched index schema and building the
//! create-index payload.
//!
//! The schema document fetched for an index holds, under that index's name,
//! its `mappings` and its `settings`. The destination refuses a create-index
//! call that repeats cluster-assigned identity fields, so sanitization removes
//! exactly `creation_date`, `provided_name`, `uuid` and `version` from the
//! settings' nested `index` object and passes every other member through
//! untouched; the mappings are never altered. The payload sent to the
//! destination holds exactly the two members `mappings` and `settings`.

use vstd::prelude::*;
use crate::json::{Json, obj_lookup, obj_take, lemma_obj_lookup_remove_other};

verus! {

/// The cluster-assigned identity fields that sanitization strips from the
/// settings' `index` object.
pub open spec fn removed_setting(k: Seq<char>) -> bool {
    ||| k == "creation_date"@
    ||| k == "provided_name"@
    ||| k == "uuid"@
    ||| k == "version"@
}

fn is_removed_setting(k: &String) -> (r: bool)
    ensures
        r == removed_setting(k@),
{
    let c: String = "creation_date".to_owned();
    let p: String = "provided_name".to_owned();
    let u: String = "uuid".to_owned();
    let v: String = "version".to_owned();
    k.eq(&c) || k.eq(&p) || k.eq(&u) || k.eq(&v)
}

/// The members of a settings' `index` object after sanitization: those whose
/// key is not an identity field, in their original order and untouched.
pub open spec fn spec_sanitize_index(f: Seq<(String, Json)>) -> Seq<(String, Json)>
    decreases f.len(),
{
    if f.len() == 0 {
        Seq::empty()
    } else {
        let rest = spec_sanitize_index(f.drop_last());
        if removed_setting(f.last().0@) {
            rest
        } else {
            rest.push(f.last())
        }
    }
}

/// Sanitization is exactly a filter: it removes the identity fields and keeps
/// every other member of the `index` object identical.
pub proof fn lemma_sanitize_is_filter(f: Seq<(String, Json)>)
    ensures
        spec_sanitize_index(f) == f.filter(|kv: (String, Json)| !removed_setting(kv.0@)),
    decreases f.len(),
{
    reveal(Seq::filter);
    if f.len() > 0 {
        lemma_sanitize_is_filter(f.drop_last());
    }
}

fn sanitize_index_object(f: Vec<(String, Json)>) -> (r: Vec<(String, Json)>)
    ensures
        r@ == spec_sanitize_index(f@),
{
    let ghost orig = f@;
    let mut rest = f;
    let mut out: Vec<(String, Json)> = Vec::new();
    let ghost mut i: int = 0;
    while rest.len() > 0
        invariant
            0 <= i <= orig.len(),
            i + rest@.len() == orig.len(),
            rest@ == orig.subrange(i, orig.len() as int),
            out@ == spec_sanitize_index(orig.subrange(0, i)),
        decreases rest@.len(),
    {
        let kv = rest.remove(0);
        proof {
            assert(kv == orig[i]);
            assert(orig.subrange(0, i + 1).drop_last() =~= orig.subrange(0, i));
            assert(orig.subrange(0, i + 1).last() == orig[i]);
            assert(rest@ =~= orig.subrange(i + 1, orig.len() as int));
        }
        if !is_removed_setting(&kv.0) {
            out.push(kv);
        }
        proof {
            i = i + 1;
        }
    }
    proof {
        assert(orig.subrange(0, i) =~= orig);
    }
    out
}

/// How a sanitized settings object relates to the fetched one: the first
/// member keyed `index` has its object filtered of the identity fields, and
/// every other member is carried over unchanged, in place.
pub open spec fn is_sanitized_fields(
    out_f: Seq<(String, Json)>,
    f: Seq<(String, Json)>,
) -> bool {
    exists|i: int|
        {
            &&& 0 <= i < f.len()
            &&& (#[trigger] f[i]).0@ == "index"@
            &&& (forall|j: int| 0 <= j < i ==> (#[trigger] f[j]).0@ != "index"@)
            &&& f[i].1 matches Json::Obj(inner)
            &&& out_f.len() == f.len()
            &&& (forall|j: int| 0 <= j < f.len() && j != i ==> (#[trigger] out_f[j]) == f[j])
            &&& out_f[i].0 == f[i].0
            &&& out_f[i].1 matches Json::Obj(s) && s@ == spec_sanitize_index(inner@)
        }
}

/// Sanitizes a settings object in place. Returns false, leaving the object
/// unchanged, exactly when no member keyed `index` holds an object (the
/// fetched settings then lack the expected shape).
#[verifier::loop_isolation(false)]
fn sanitize_settings_fields(sf: &mut Vec<(String, Json)>) -> (ok: bool)
    ensures
        ok <==> (obj_lookup(old(sf)@, "index"@) matches Some(v) && v is Obj),
        ok ==> is_sanitized_fields(final(sf)@, old(sf)@),
        !ok ==> final(sf)@ == old(sf)@,
{
    let key: String = "index".to_owned();
    let mut i: usize = 0;
    while i < sf.len()
        invariant
            0 <= i <= sf@.len(),
            sf@ == old(sf)@,
            forall|j: int| 0 <= j < i ==> (#[trigger] sf@[j]).0@ != "index"@,
        decreases sf@.len() - i,
    {
        if sf[i].0.eq(&key) {
            proof {
                crate::json::lemma_obj_lookup_at(sf@, "index"@, i as int);
            }
            let (k, v) = sf.remove(i);
            match v {
                Json::Obj(inner) => {
                    let ghost inner_snap = inner@;
                    let filtered = sanitize_index_object(inner);
                    sf.insert(i, (k, Json::Obj(filtered)));
                    proof {
                        assert(sf@ =~= old(sf)@.update(
                            i as int,
                            (old(sf)@[i as int].0, sf@[i as int].1),
                        ));
                        assert(is_sanitized_fields(sf@, old(sf)@));
                    }
                    return true;
                },
                other => {
                    sf.insert(i, (k, other));
                    proof {
                        assert(sf@ =~= old(sf)@);
                    }
                    return false;
                },
            }
        }
        i += 1;
    }
    proof {
        crate::json::lemma_obj_lookup_none(sf@, "index"@);
    }
    false
}

/// The schema document has the shape Schema Replication needs: an object
/// whose member named for the index is an object holding `mappings`, and
/// `settings` as an object whose `index` member is itself an object.
pub open spec fn schema_shape_ok(resp: Json, index: Seq<char>) -> bool {
    &&& resp matches Json::Obj(rf)
    &&& obj_lookup(rf@, index) matches Some(entry)
    &&& entry matches Json::Obj(e)
    &&& obj_lookup(e@, "mappings"@) is Some
    &&& obj_lookup(e@, "settings"@) matches Some(settings)
    &&& settings matches Json::Obj(sf)
    &&& obj_lookup(sf@, "index"@) matches Some(v)
    &&& v is Obj
}

/// How the create-index payload relates to the fetched schema document: an
/// object of exactly the two members `mappings` — the fetched mappings,
/// untouched — and `settings` — the fetched settings with its `index` object
/// sanitized.
pub open spec fn is_schema_payload(p: Json, resp: Json, index: Seq<char>) -> bool {
    &&& resp matches Json::Obj(rf)
    &&& obj_lookup(rf@, index) matches Some(entry)
    &&& entry matches Json::Obj(e)
    &&& obj_lookup(e@, "mappings"@) matches Some(m)
    &&& obj_lookup(e@, "settings"@) matches Some(settings)
    &&& settings matches Json::Obj(sf)
    &&& p matches Json::Obj(pf)
    &&& pf@.len() == 2
    &&& pf@[0].0@ == "mappings"@
    &&& pf@[0].1 == m
    &&& pf@[1].0@ == "settings"@
    &&& pf@[1].1 matches Json::Obj(out_sf)
    &&& is_sanitized_fields(out_sf@, sf@)
}

/// The destination create-index payload always holds exactly two top-level
/// members, `mappings` and `settings`, whatever else the source response
/// carried.
pub proof fn lemma_payload_two_members(p: Json, resp: Json, index: Seq<char>)
    requires
        is_schema_payload(p, resp, index),
    ensures
        p matches Json::Obj(pf) && pf@.len() == 2 && pf@[0].0@ == "mappings"@ && pf@[1].0@
            == "settings"@,
{
}

/// Builds the destination create-index payload from a fetched schema
/// document: `Some` exactly when the document has the expected shape, and
/// then an object of exactly `mappings` (untouched) and sanitized `settings`.
pub fn schema_payload(resp: Json, index: &String) -> (r: Option<Json>)
    ensures
        r matches Some(p) ==> is_schema_payload(p, resp, index@),
        r is Some <==> schema_shape_ok(resp, index@),
{
    match resp {
        Json::Obj(mut rf) => {
            let entry = obj_take(&mut rf, index);
            match entry {
                Some(Json::Obj(mut e)) => {
                    let ghost e_snap = e@;
                    let mkey: String = "mappings".to_owned();
                    let mappings = obj_take(&mut e, &mkey);
                    match mappings {
                        Some(m) => {
                            proof {
                                reveal_strlit("mappings");
                                reveal_strlit("settings");
                                assert("mappings"@[0] == 'm');
                                assert("settings"@[0] == 's');
                                assert("mappings"@ != "settings"@);
                            }
                            let skey: String = "settings".to_owned();
                            let settings = obj_take(&mut e, &skey);
                            match settings {
                                Some(Json::Obj(mut sf)) => {
                                    let ok = sanitize_settings_fields(&mut sf);
                                    if ok {
                                        let mut pf: Vec<(String, Json)> = Vec::new();
                                        pf.push(("mappings".to_owned(), m));
                                        pf.push(("settings".to_owned(), Json::Obj(sf)));
                                        Some(Json::Obj(pf))
                                    } else {
                                        None
                                    }
                                },
                                _ => None,
                            }
                        },
                        None => None,
                    }
                },
                _ => None,
            }
        },
        _ => None,
    }
}

} // verus!
