//! Hash maps that hash with FNV, as far as the library uses them. What the
//! functions here say of a map is taken on trust from `std::collections::HashMap`
//! and from `fnv::FnvHasher`, a hasher without state of its own or a seed, so
//! that a key is found again under the hash it was stored with.

use fnv::FnvHashMap;
use fnv::FnvHasher;
use std::hash::BuildHasherDefault;
use std::hash::Hash;
use vstd::prelude::*;
use vstd::std_specs::hash::obeys_key_model;

verus! {

/// `fnv::FnvHasher`, taken as it is: nothing is read from a hasher here.
#[verifier::external_type_specification]
#[verifier::external_body]
pub struct ExFnvHasher(FnvHasher);

/// `std::hash::BuildHasherDefault`, taken as it is: it is the type through
/// which a map makes its hashers.
#[verifier::external_type_specification]
#[verifier::external_body]
#[verifier::reject_recursive_types(H)]
pub struct ExBuildHasherDefault<H>(BuildHasherDefault<H>);

/// That a map holds no key.
pub open spec fn holds_nothing<K, V>(m: Map<K, V>) -> bool {
    m == Map::<K, V>::empty()
}

/// That a list names each key of a map once and nothing else.
pub open spec fn lists_keys<K, V>(keys: Seq<K>, m: Map<K, V>) -> bool {
    &&& keys.no_duplicates()
    &&& forall|k: K| keys.contains(k) <==> m.contains_key(k)
}

/// `FnvHashMap::default`: a map that holds nothing.
#[verifier::external_body]
pub(crate) fn new_map<K: Eq + Hash, V>() -> (res: FnvHashMap<K, V>)
    ensures
        holds_nothing(res@),
{
    FnvHashMap::default()
}

/// `HashMap::insert` on a map that hashes with FNV: the key holds the new value
/// afterwards, every other key is as before, and the value that the key held
/// before comes back.
#[verifier::external_body]
pub(crate) fn map_insert<K: Eq + Hash, V>(m: &mut FnvHashMap<K, V>, k: K, v: V) -> (prev: Option<V>)
    requires
        obeys_key_model::<K>(),
    ensures
        final(m)@ == old(m)@.insert(k, v),
        prev == (if old(m)@.contains_key(k) { Some(old(m)@[k]) } else { None::<V> }),
{
    m.insert(k, v)
}

/// `HashMap::get` on a map that hashes with FNV: the value under the key, if the
/// key is held.
#[verifier::external_body]
pub(crate) fn map_get<'a, K: Eq + Hash, V>(m: &'a FnvHashMap<K, V>, k: &K) -> (r: Option<&'a V>)
    requires
        obeys_key_model::<K>(),
    ensures
        r == (if m@.contains_key(*k) { Some(&m@[*k]) } else { None::<&V> }),
{
    m.get(k)
}

/// `HashMap::remove` on a map that hashes with FNV: the key is no longer held,
/// every other key is as before, and the value that the key held comes back.
#[verifier::external_body]
pub(crate) fn map_remove<K: Eq + Hash, V>(m: &mut FnvHashMap<K, V>, k: &K) -> (prev: Option<V>)
    requires
        obeys_key_model::<K>(),
    ensures
        final(m)@ == old(m)@.remove(*k),
        prev == (if old(m)@.contains_key(*k) { Some(old(m)@[*k]) } else { None::<V> }),
{
    m.remove(k)
}

/// `HashMap::keys` on a map that hashes with FNV, copied into a list: each key
/// of the map once, in an order that is not stated.
#[verifier::external_body]
pub(crate) fn map_keys<K: Eq + Hash + Copy, V>(m: &FnvHashMap<K, V>) -> (keys: Vec<K>)
    requires
        obeys_key_model::<K>(),
    ensures
        lists_keys(keys@, m@),
{
    m.keys().copied().collect()
}

} // verus!
