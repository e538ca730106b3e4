//! Session-wide laws of the driver, stated over the spec-level transitions
//! that the executable operations are proved to implement.

use vstd::prelude::*;

use crate::driver::{read_rejected, state_data};
use crate::state::{
    alloc_t, flush_command, flush_t, fresh_buffer, read_fetched_ok, read_fetched_t, spliced,
    state_key, window, write_ok, write_t, DriverView, FlushCommandView, ValueStateView, WriteMode,
};

verus! {

/// For every key present in the store: allocating an identifier for it and
/// reading through that identifier is owed success, asks the store for
/// exactly that key, caches exactly the store's value, and hands back that
/// value truncated to the requested window.
pub proof fn lemma_lookup_then_read(
    s: DriverView,
    key: Seq<char>,
    v: Seq<u8>,
    offset: u64,
    size: u32,
)
    requires
        s.wf(),
        s.next_id < u64::MAX,
        offset <= v.len(),
    ensures
        alloc_t(s, key).registry.contains_key(s.next_id),
        alloc_t(s, key).registry[s.next_id] == (ValueStateView::ToRead { key }),
        read_fetched_ok(alloc_t(s, key), s.next_id, offset, Some(v)),
        read_fetched_t(alloc_t(s, key), s.next_id, offset, Some(v)).registry[s.next_id] == (
        ValueStateView::Read { key, data: v }),
        window(v, offset, size) == v.subrange(
            offset as int,
            offset + if size <= v.len() - offset {
                size as int
            } else {
                v.len() - offset
            },
        ),
{
}

/// Round trip: a first write at offset zero builds an Overwrite buffer
/// holding exactly the written bytes; its flush commits a command that SETs
/// exactly those bytes under the identifier's key; and a read of that many
/// bytes or more returns them whole.
pub proof fn lemma_overwrite_round_trip(s: DriverView, id: u64, bytes: Seq<u8>, size: u32)
    requires
        s.wf(),
        s.registry.contains_key(id),
        !s.buffers.contains_key(id),
        size >= bytes.len(),
    ensures
        write_ok(s, id),
        write_t(s, id, 0, bytes).buffers.contains_key(id),
        write_t(s, id, 0, bytes).buffers[id].mode == WriteMode::Overwrite,
        flush_command(write_t(s, id, 0, bytes).buffers[id]) == (FlushCommandView::Overwrite {
            key: state_key(s.registry[id]),
            value: bytes,
        }),
        window(bytes, 0, size) == bytes,
{
    assert(write_t(s, id, 0, bytes).buffers[id] == fresh_buffer(
        state_key(s.registry[id]),
        0,
        bytes,
    ));
    assert(window(bytes, 0, size) =~= bytes);
}

/// Round trip, end to end: buffering `bytes` at offset zero on a live
/// identifier and flushing commits exactly `bytes` under that identifier's
/// key; in any later session state, a fresh lookup of that key followed by
/// a read against the committed value is owed success and returns exactly
/// `bytes`.
pub proof fn lemma_round_trip_end_to_end(
    s: DriverView,
    id: u64,
    bytes: Seq<u8>,
    s2: DriverView,
    size: u32,
)
    requires
        s.wf(),
        s.registry.contains_key(id),
        !s.buffers.contains_key(id),
        s2.wf(),
        s2.next_id < u64::MAX,
        size >= bytes.len(),
    ensures
        ({
            let key = state_key(s.registry[id]);
            let committed = flush_command(write_t(s, id, 0, bytes).buffers[id]);
            let s3 = alloc_t(s2, key);
            &&& committed == (FlushCommandView::Overwrite { key, value: bytes })
            &&& s3.registry[s2.next_id] == (ValueStateView::ToRead { key })
            &&& read_fetched_ok(s3, s2.next_id, 0, Some(bytes))
            &&& window(bytes, 0, size) == bytes
        }),
{
    lemma_overwrite_round_trip(s, id, bytes, size);
    lemma_lookup_then_read(s2, state_key(s.registry[id]), bytes, 0, size);
}

/// Append: a first write at a nonzero offset `k` builds an Append-at(`k`)
/// buffer; its flush commits a splice command, and splicing against a
/// stored value `V` with `0 < k <= |V|` yields exactly `V[0..k] + B`.
pub proof fn lemma_append_commit(s: DriverView, id: u64, k: u64, bytes: Seq<u8>, v: Seq<u8>)
    requires
        s.wf(),
        s.registry.contains_key(id),
        !s.buffers.contains_key(id),
        0 < k <= v.len(),
    ensures
        write_t(s, id, k, bytes).buffers.contains_key(id),
        write_t(s, id, k, bytes).buffers[id].mode == WriteMode::Append(k),
        flush_command(write_t(s, id, k, bytes).buffers[id]) == (FlushCommandView::Splice {
            key: state_key(s.registry[id]),
            offset: k,
            data: bytes,
        }),
        spliced(v, k, bytes) == v.subrange(0, k as int) + bytes,
{
    assert(write_t(s, id, k, bytes).buffers[id] == fresh_buffer(
        state_key(s.registry[id]),
        k,
        bytes,
    ));
}

/// Idempotence: a flush drains the identifier's buffer, so a second flush
/// without an intervening write finds none and must fail; and a write in
/// between restores exactly one buffer for it.
pub proof fn lemma_flush_idempotent(s: DriverView, id: u64, offset: u64, bytes: Seq<u8>)
    ensures
        !flush_t(s, id).buffers.contains_key(id),
        s.registry.contains_key(id) ==> write_t(flush_t(s, id), id, offset, bytes).buffers
            .contains_key(id),
{
}

/// Enumeration completeness: identifiers handed out for one listing are
/// consecutive from the counter, so all of them are distinct.
pub proof fn lemma_enumeration_distinct(ids: Seq<u64>, base: u64)
    requires
        forall|i: int| 0 <= i < ids.len() ==> #[trigger] ids[i] == base + i,
    ensures
        forall|i: int, j: int| 0 <= i < j < ids.len() ==> ids[i] != ids[j],
{
}

/// Per-identifier isolation: completing one identifier's read never touches
/// another identifier's entry, so every open identifier's snapshot stays
/// self-consistent whatever reads other identifiers complete — even two
/// identifiers that alias the same key keep their own snapshots.
pub proof fn lemma_snapshot_isolation(
    s: DriverView,
    id: u64,
    other: u64,
    offset: u64,
    fetched: Option<Seq<u8>>,
)
    requires
        id != other,
        s.registry.contains_key(id),
    ensures
        read_fetched_t(s, other, offset, fetched).registry.contains_key(id),
        read_fetched_t(s, other, offset, fetched).registry[id] == s.registry[id],
{
}

/// Boundary: a read at the value's end returns zero bytes; a read past the
/// end — whether against the cache or against a freshly fetched value — is
/// rejected with nothing changed.
pub proof fn lemma_read_boundary(s: DriverView, id: u64, v: Seq<u8>, offset: u64, size: u32)
    requires
        v.len() <= u64::MAX,
    ensures
        window(v, v.len() as u64, size) == Seq::<u8>::empty(),
        offset > v.len() ==> !read_fetched_ok(s, id, offset, Some(v)),
        offset > v.len() ==> read_fetched_t(s, id, offset, Some(v)) == s,
        s.registry.contains_key(id) && s.registry[id] == (ValueStateView::Read {
            key: state_key(s.registry[id]),
            data: v,
        }) && offset > v.len() ==> read_rejected(s, id, offset),
{
    assert(window(v, v.len() as u64, size) =~= Seq::<u8>::empty());
    if s.registry.contains_key(id) && s.registry[id] == (ValueStateView::Read {
        key: state_key(s.registry[id]),
        data: v,
    }) && offset > v.len() {
        assert(state_data(s.registry[id]) == v);
    }
}

} // verus!
