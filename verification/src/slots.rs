//! The slot table of the registry: `slab::Slab`, as far as the registry
//! uses it.
//!
//! Nothing in this file is proved. Each contract restates what the `slab`
//! crate documents and what its source shows.

use slab::Slab;
use vstd::prelude::*;

use crate::transport::Adapter;

verus! {

/// `slab::Slab`, declared so that the registry can hold one.
#[verifier::external_type_specification]
#[verifier::external_body]
#[verifier::reject_recursive_types(T)]
pub struct ExSlab<T>(Slab<T>);

/// The values that a slab stores, each under its key.
pub uninterp spec fn slab_entries(slab: Slab<Adapter>) -> Map<usize, Adapter>;

/// The key that the next insertion into a slab will use.
pub uninterp spec fn slab_vacant_key(slab: Slab<Adapter>) -> usize;

/// `Slab::new`: the new slab stores nothing, and its vacant key is 0.
#[verifier::external_body]
pub(crate) fn slab_new() -> (table: Slab<Adapter>)
    ensures
        slab_entries(table).dom() == Set::<usize>::empty(),
        slab_vacant_key(table) == 0,
{
    Slab::new()
}

/// `Slab::len`: the number of stored values.
#[verifier::external_body]
pub(crate) fn slab_len(slab: &Slab<Adapter>) -> (len: usize)
    ensures
        len == slab_entries(*slab).len(),
{
    slab.len()
}

/// `Slab::get`: the value stored under `key`, if there is one.
#[verifier::external_body]
pub(crate) fn slab_get(slab: &Slab<Adapter>, key: usize) -> (found: Option<Adapter>)
    ensures
        found == (if slab_entries(*slab).contains_key(key) {
            Some(slab_entries(*slab)[key])
        } else {
            None
        }),
{
    slab.get(key).copied()
}

/// `Slab::insert`: stores `value` under the slab's vacant key, which held
/// nothing before, and returns that key. The other entries stay as they
/// were.
///
/// The contract speaks of the call that returns. `Slab::insert` panics
/// where its storage would have to grow beyond `isize::MAX` bytes, and the
/// contract does not say that it never does.
#[verifier::external_body]
pub(crate) fn slab_insert(slab: &mut Slab<Adapter>, value: Adapter) -> (key: usize)
    ensures
        key == slab_vacant_key(*old(slab)),
        !slab_entries(*old(slab)).contains_key(key),
        slab_entries(*final(slab)) == slab_entries(*old(slab)).insert(key, value),
{
    slab.insert(value)
}

/// `Slab::try_remove`: takes out and returns the value stored under `key`,
/// and makes `key` the vacant key. Where nothing is stored under `key`,
/// returns `None` and leaves the slab as it was.
#[verifier::external_body]
pub(crate) fn slab_try_remove(slab: &mut Slab<Adapter>, key: usize) -> (removed: Option<Adapter>)
    ensures
        removed == (if slab_entries(*old(slab)).contains_key(key) {
            Some(slab_entries(*old(slab))[key])
        } else {
            None
        }),
        slab_entries(*final(slab)) == slab_entries(*old(slab)).remove(key),
        slab_vacant_key(*final(slab)) == (if slab_entries(*old(slab)).contains_key(key) {
            key
        } else {
            slab_vacant_key(*old(slab))
        }),
    no_unwind
{
    slab.try_remove(key)
}

} // verus!
