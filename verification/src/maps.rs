//! The hash maps that the rules consult, and what is taken on trust of them.

use rustc_hash::FxBuildHasher;
use rustc_hash::FxHashMap;
use vstd::prelude::*;

verus! {

/// The hasher builder of `rustc_hash`; the maps of this library are built with it.
#[verifier::external_type_specification]
#[verifier::external_body]
pub struct ExFxBuildHasher(FxBuildHasher);

/// The keys of the library's maps: a hygiene context, or a lexical identity.
/// Both are integers or pairs of integers, hashed and compared by value. The
/// trait is the library's own, so that no other type can be a key.
pub(crate) trait TableKey: std::hash::Hash + Eq {

}

impl TableKey for u32 {

}

impl TableKey for (u64, u32) {

}

/// `HashMap::get`: a reference to the value stored under `k`, or `None` where
/// the map holds no such key. Taken on trust.
#[verifier::external_body]
pub(crate) fn table_get<'a, K: TableKey, V>(m: &'a FxHashMap<K, V>, k: &K) -> (r: Option<&'a V>)
    ensures
        r == (if m@.contains_key(*k) {
            Some(&m@[*k])
        } else {
            None::<&V>
        }),
{
    m.get(k)
}

/// `HashMap::insert`: afterwards the map holds `v` under `k` and is otherwise
/// as before. Taken on trust.
#[verifier::external_body]
pub(crate) fn table_insert<K: TableKey, V>(m: &mut FxHashMap<K, V>, k: K, v: V)
    ensures
        final(m)@ == old(m)@.insert(k, v),
{
    m.insert(k, v);
}

/// `HashMap::remove`: takes the entry of `k` out of the map and hands its value
/// back, or `None` where the map holds no such key. Taken on trust.
#[verifier::external_body]
pub(crate) fn table_remove<K: TableKey, V>(m: &mut FxHashMap<K, V>, k: &K) -> (r: Option<V>)
    ensures
        final(m)@ == old(m)@.remove(*k),
        r == (if old(m)@.contains_key(*k) {
            Some(old(m)@[*k])
        } else {
            None::<V>
        }),
{
    m.remove(k)
}

/// What an emptiness test answers on a map of contents `m`: the contents are
/// finite, and the answer is whether they have no entry.
pub open spec fn answers_emptiness<K, V>(m: Map<K, V>, r: bool) -> bool {
    m.dom().finite() && r == (m.len() == 0)
}

/// `HashMap::is_empty`: whether the map holds no entry; a map holds finitely
/// many. Taken on trust.
#[verifier::external_body]
pub(crate) fn table_is_empty<K: TableKey, V>(m: &FxHashMap<K, V>) -> (r: bool)
    ensures
        answers_emptiness(m@, r),
{
    m.is_empty()
}

} // verus!
