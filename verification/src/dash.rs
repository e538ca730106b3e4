//! Trusted boundary to the concurrent map that holds the registry and the
//! write-buffer table. The maps themselves come from the `dashmap` crate;
//! each operation the library uses is wrapped here with the contract the
//! crate's source shows, stated over the two content models below.

use vstd::prelude::*;

use crate::state::{ValueState, ValueStateView, WriteBuffer, WriteBufferView};

verus! {

#[verifier::external_type_specification]
#[verifier::external_body]
#[verifier::reject_recursive_types(K)]
#[verifier::reject_recursive_types(V)]
#[verifier::reject_recursive_types(S)]
pub struct ExDashMap<K, V, S>(dashmap::DashMap<K, V, S>);

/// What the registry map holds: its entries, as a map from identifier to
/// the view of the stored value state.
pub uninterp spec fn registry_model(m: dashmap::DashMap<u64, ValueState>) -> Map<
    u64,
    ValueStateView,
>;

/// What the write-buffer map holds: its entries, as a map from identifier
/// to the view of the stored buffer.
pub uninterp spec fn buffers_model(m: dashmap::DashMap<u64, WriteBuffer>) -> Map<
    u64,
    WriteBufferView,
>;

/// Relies on dashmap::DashMap::new: creates an empty map.
#[verifier::external_body]
pub(crate) fn registry_new() -> (r: dashmap::DashMap<u64, ValueState>)
    ensures
        ({
            let m = &r;
            registry_model(*m) == Map::<u64, ValueStateView>::empty()
        }),
{
    dashmap::DashMap::new()
}

/// Relies on dashmap::DashMap::insert: afterwards the key maps to the given
/// value; no other entry changes.
#[verifier::external_body]
pub(crate) fn registry_insert(m: &mut dashmap::DashMap<u64, ValueState>, id: u64, v: ValueState)
    ensures
        registry_model(*final(m)) == registry_model(*old(m)).insert(id, v@),
{
    m.insert(id, v);
}

/// Relies on dashmap::DashMap::get: returns the value under the key, if
/// any (cloned out of the map's read guard); the map is unchanged.
#[verifier::external_body]
pub(crate) fn registry_get(m: &dashmap::DashMap<u64, ValueState>, id: u64) -> (r: Option<
    ValueState,
>)
    ensures
        match r {
            Some(v) => registry_model(*m).contains_key(id) && v@ == registry_model(*m)[id],
            None => !registry_model(*m).contains_key(id),
        },
{
    m.get(&id).map(|entry| entry.value().clone())
}

/// Relies on dashmap::DashMap::remove: takes the entry under the key out of
/// the map and hands its value back, or nothing when the key is absent.
#[verifier::external_body]
pub(crate) fn registry_remove(m: &mut dashmap::DashMap<u64, ValueState>, id: u64) -> (r: Option<
    ValueState,
>)
    ensures
        registry_model(*final(m)) == registry_model(*old(m)).remove(id),
        match r {
            Some(v) => registry_model(*old(m)).contains_key(id) && v@ == registry_model(*old(m))[id],
            None => !registry_model(*old(m)).contains_key(id),
        },
{
    m.remove(&id).map(|kv| kv.1)
}

/// Relies on dashmap::DashMap::new: creates an empty map.
#[verifier::external_body]
pub(crate) fn buffers_new() -> (r: dashmap::DashMap<u64, WriteBuffer>)
    ensures
        ({
            let m = &r;
            buffers_model(*m) == Map::<u64, WriteBufferView>::empty()
        }),
{
    dashmap::DashMap::new()
}

/// Relies on dashmap::DashMap::insert: afterwards the key maps to the given
/// value; no other entry changes.
#[verifier::external_body]
pub(crate) fn buffers_insert(m: &mut dashmap::DashMap<u64, WriteBuffer>, id: u64, b: WriteBuffer)
    ensures
        buffers_model(*final(m)) == buffers_model(*old(m)).insert(id, b@),
{
    m.insert(id, b);
}

/// Relies on dashmap::DashMap::remove: takes the entry under the key out of
/// the map and hands its value back, or nothing when the key is absent.
#[verifier::external_body]
pub(crate) fn buffers_take(m: &mut dashmap::DashMap<u64, WriteBuffer>, id: u64) -> (r: Option<
    WriteBuffer,
>)
    ensures
        buffers_model(*final(m)) == buffers_model(*old(m)).remove(id),
        match r {
            Some(b) => buffers_model(*old(m)).contains_key(id) && b@ == buffers_model(*old(m))[id],
            None => !buffers_model(*old(m)).contains_key(id),
        },
{
    m.remove(&id).map(|kv| kv.1)
}

} // verus!
