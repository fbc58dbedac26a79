//! The hash maps of `rustc_hash` that hold the correlation table and the
//! resolution maps.
//!
//! `FxHashMap` is std's `HashMap` with the deterministic `FxBuildHasher`.
//! vstd describes std's `HashMap` only for hashers it knows, so the two
//! methods used here get contracts of their own below.
use vstd::prelude::*;

use rustc_hash::{FxBuildHasher, FxHashMap};
use scarb_proc_macro_server_types::methods::expand::{
    ExpandAttributeParams, ExpandDeriveParams, ExpandInlineMacroParams,
};

verus! {

/// Declares rustc_hash's `FxBuildHasher`, the hasher of `FxHashMap`.
#[verifier::external_type_specification]
#[verifier::external_body]
pub struct ExFxBuildHasher(FxBuildHasher);

/// Key types whose `Eq` is equality of values and whose `Hash` agrees with
/// it: integers, and the expansion parameters, which derive both.
pub(crate) trait FxKey: core::hash::Hash + Eq + Sized {
    /// A copy of the key.
    fn duplicate(&self) -> (r: Self)
        ensures
            r == *self,
    ;
}

impl FxKey for u64 {
    fn duplicate(&self) -> (r: Self) {
        *self
    }
}

impl FxKey for ExpandAttributeParams {
    fn duplicate(&self) -> (r: Self) {
        self.clone()
    }
}

impl FxKey for ExpandDeriveParams {
    fn duplicate(&self) -> (r: Self) {
        self.clone()
    }
}

impl FxKey for ExpandInlineMacroParams {
    fn duplicate(&self) -> (r: Self) {
        self.clone()
    }
}

/// Relies on the `Clone` that `ExpandAttributeParams` derives: a copy of
/// every field.
pub assume_specification[ <ExpandAttributeParams as Clone>::clone ](
    p: &ExpandAttributeParams,
) -> (r: ExpandAttributeParams)
    ensures
        r == *p,
;

/// Relies on the `Clone` that `ExpandDeriveParams` derives: a copy of
/// every field.
pub assume_specification[ <ExpandDeriveParams as Clone>::clone ](p: &ExpandDeriveParams) -> (r:
    ExpandDeriveParams)
    ensures
        r == *p,
;

/// Relies on the `Clone` that `ExpandInlineMacroParams` derives: a copy of
/// every field.
pub assume_specification[ <ExpandInlineMacroParams as Clone>::clone ](
    p: &ExpandInlineMacroParams,
) -> (r: ExpandInlineMacroParams)
    ensures
        r == *p,
;

/// An empty map.
pub fn fx_new<K, V>() -> (m: FxHashMap<K, V>)
    ensures
        m@ == Map::<K, V>::empty(),
{
    FxHashMap::default()
}

/// Relies on std's `HashMap::insert` under rustc_hash's `FxBuildHasher`:
/// afterwards `k` maps to `v` and every other key is as it was. This holds
/// because the hasher is deterministic and the key's `Eq` and `Hash` agree
/// (see `FxKey`).
#[verifier::external_body]
pub(crate) fn fx_insert<K: FxKey, V>(m: &mut FxHashMap<K, V>, k: K, v: V)
    ensures
        final(m)@ == old(m)@.insert(k, v),
{
    m.insert(k, v);
}

/// Relies on std's `HashMap::get` under rustc_hash's `FxBuildHasher`: the
/// value of `k`, if it has one. It holds for the same reasons as `fx_insert`.
#[verifier::external_body]
pub(crate) fn fx_get<'a, K: FxKey, V>(m: &'a FxHashMap<K, V>, k: &K) -> (r: Option<&'a V>)
    ensures
        match r {
            Some(v) => m@.contains_key(*k) && *v == m@[*k],
            None => !m@.contains_key(*k),
        },
{
    m.get(k)
}

/// Relies on std's `HashMap::remove` under rustc_hash's `FxBuildHasher`:
/// it takes out the entry of `k` and returns its value, if there was one.
/// It holds for the same reasons as `fx_insert`.
#[verifier::external_body]
pub(crate) fn fx_remove<K: FxKey, V>(m: &mut FxHashMap<K, V>, k: &K) -> (r: Option<V>)
    ensures
        final(m)@ == old(m)@.remove(*k),
        match r {
            Some(v) => old(m)@.contains_key(*k) && v == old(m)@[*k],
            None => !old(m)@.contains_key(*k),
        },
{
    m.remove(k)
}

} // verus!
