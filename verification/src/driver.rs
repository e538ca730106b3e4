//! The driver: the identifier registry and the write-buffer manager.
//!
//! The store itself is an external collaborator, reached only over the
//! network. Every operation here is therefore a pure step of the session's
//! state machine: it decides, records, and — where the store must act —
//! hands back a value (a key to fetch, a `FlushCommand` to commit) that the
//! surrounding runtime carries out before calling the completion step.

use vstd::prelude::*;

use crate::dash;
use crate::errors::FsError;
use crate::state::{
    alloc_t, appended, close_t, flush_command, flush_t, fresh_buffer, opt_bytes,
    read_fetched_ok, read_fetched_t, spliced, state_key, window, write_ok, write_t, DriverView,
    FlushCommand, ValueState, ValueStateView, WriteBuffer, WriteMode, FIRST_DYNAMIC_ID,
};

verus! {

/// The value bytes held by a loaded state; empty for an unloaded one.
pub open spec fn state_data(v: ValueStateView) -> Seq<u8> {
    match v {
        ValueStateView::ToRead { .. } => Seq::empty(),
        ValueStateView::Read { data, .. } => data,
    }
}

/// Whether a read on `id` fails outright: the identifier is unknown, or the
/// value is already cached and the offset lies past its end.
pub open spec fn read_rejected(s: DriverView, id: u64, offset: u64) -> bool {
    ||| !s.registry.contains_key(id)
    ||| (s.registry[id] is Read && offset > state_data(s.registry[id]).len())
}

/// What a read step asks for next: the answer itself when the value is
/// cached, or the key whose value the store must be asked for first.
pub enum ReadStep {
    Data(Vec<u8>),
    Fetch(String),
}

/// The identifier registry and write-buffer manager of one mount session.
///
/// Identifiers are drawn from a counter that never goes back and never
/// reuses a value. The two tables are the shared associative structure of
/// the design; every operation here takes the driver exclusively and its
/// contract describes it as one atomic step, with the store's part of the
/// work handed back to the caller between steps.
pub struct RedisDriver {
    next_id: u64,
    id_to_value: dashmap::DashMap<u64, ValueState>,
    write_buffers: dashmap::DashMap<u64, WriteBuffer>,
}

impl View for RedisDriver {
    type V = DriverView;

    closed spec fn view(&self) -> DriverView {
        DriverView {
            next_id: self.next_id,
            registry: dash::registry_model(self.id_to_value),
            buffers: dash::buffers_model(self.write_buffers),
        }
    }
}

proof fn lemma_remove_insert<V>(m: Map<u64, V>, k: u64, v: V)
    ensures
        m.remove(k).insert(k, v) =~= m.insert(k, v),
{
}

/// Appends every byte of `src` to `dst`, in order.
fn push_all(dst: &mut Vec<u8>, src: &[u8])
    ensures
        final(dst)@ == old(dst)@ + src@,
{
    let mut i: usize = 0;
    while i < src.len()
        invariant
            i <= src@.len(),
            dst@ == old(dst)@ + src@.take(i as int),
        decreases src@.len() - i,
    {
        proof {
            assert(src@.take(i + 1) =~= src@.take(i as int).push(src@[i as int]));
        }
        dst.push(src[i]);
        i += 1;
    }
    proof {
        assert(src@.take(src@.len() as int) =~= src@);
    }
}

/// Copies at most `size` bytes of `data` starting at `offset`.
fn copy_window(data: &Vec<u8>, offset: u64, size: u32) -> (r: Vec<u8>)
    requires
        offset <= data@.len(),
    ensures
        r@ == window(data@, offset, size),
{
    let l = data.len();
    let start = offset as usize;
    let avail = l - start;
    let take_n: usize = if size as usize <= avail {
        size as usize
    } else {
        avail
    };
    let mut out: Vec<u8> = Vec::new();
    let mut i: usize = 0;
    while i < take_n
        invariant
            i <= take_n,
            l == data@.len(),
            start == offset,
            start + take_n <= l,
            out@ == data@.subrange(offset as int, offset + i),
        decreases take_n - i,
    {
        proof {
            assert(data@.subrange(offset as int, offset + i + 1) =~= data@.subrange(
                offset as int,
                offset + i,
            ).push(data@[offset + i]));
        }
        out.push(data[start + i]);
        i += 1;
    }
    proof {
        assert(out@ =~= window(data@, offset, size));
    }
    out
}

impl RedisDriver {
    /// A fresh session: the counter sits just above the reserved range and
    /// both tables are empty.
    pub fn new() -> (d: RedisDriver)
        ensures
            d@ == (DriverView {
                next_id: FIRST_DYNAMIC_ID,
                registry: Map::empty(),
                buffers: Map::empty(),
            }),
            d@.wf(),
    {
        let d = RedisDriver {
            next_id: FIRST_DYNAMIC_ID,
            id_to_value: dash::registry_new(),
            write_buffers: dash::buffers_new(),
        };
        proof {
            assert(d@ =~= DriverView {
                next_id: FIRST_DYNAMIC_ID,
                registry: Map::empty(),
                buffers: Map::empty(),
            });
        }
        d
    }

    /// Allocation: a fresh identifier for `key`, with Unloaded state. The
    /// key's existence in the store is deliberately not checked here; a
    /// lookup on an absent key yields a usable identifier and the miss is
    /// deferred to the first read.
    pub fn open_key(&mut self, key: &str) -> (id: u64)
        requires
            old(self)@.wf(),
            old(self)@.next_id < u64::MAX,
        ensures
            final(self)@.wf(),
            final(self)@ == alloc_t(old(self)@, key@),
            id == old(self)@.next_id,
            !old(self)@.registry.contains_key(id),
            final(self)@.registry.contains_key(id),
            final(self)@.registry[id] == (ValueStateView::ToRead { key: key@ }),
    {
        let id = self.next_id;
        self.next_id = id + 1;
        let owned = String::from_str(key);
        dash::registry_insert(&mut self.id_to_value, id, ValueState::ToRead { key: owned });
        proof {
            let s0 = old(self)@;
            let s1 = self@;
            assert(s1 =~= alloc_t(s0, key@));
            assert forall|j: u64| #[trigger] s1.registry.contains_key(j) implies FIRST_DYNAMIC_ID
                <= j < s1.next_id by {
                if j != id {
                    assert(s0.registry.contains_key(j));
                }
            }
            assert forall|j: u64|
                s1.registry.contains_key(j) && #[trigger] s1.buffers.contains_key(j)
                    implies s1.buffers[j].key == state_key(s1.registry[j]) by {
                assert(!s0.buffers.contains_key(id));
                assert(s0.registry.contains_key(j) && s0.buffers.contains_key(j));
            }
        }
        id
    }

    /// Buffered write: appends `bytes` to the identifier's buffer, creating
    /// the buffer — with the mode chosen from this first offset — when none
    /// exists. Accepts exactly `bytes.len()` bytes, or fails with NotFound
    /// when the identifier is unknown to both tables.
    pub fn write(&mut self, id: u64, offset: u64, bytes: &[u8]) -> (r: Result<usize, FsError>)
        requires
            old(self)@.wf(),
        ensures
            final(self)@.wf(),
            final(self)@ == write_t(old(self)@, id, offset, bytes@),
            r matches Ok(n) ==> write_ok(old(self)@, id) && n == bytes@.len(),
            r matches Err(e) ==> !write_ok(old(self)@, id) && e == FsError::NotFound,
    {
        match dash::buffers_take(&mut self.write_buffers, id) {
            Some(mut buf) => {
                push_all(&mut buf.buffer, bytes);
                let ghost grown = appended(old(self)@.buffers[id], bytes@);
                proof {
                    assert(buf@ =~= grown);
                }
                dash::buffers_insert(&mut self.write_buffers, id, buf);
                proof {
                    lemma_remove_insert(old(self)@.buffers, id, grown);
                    assert(self@ =~= write_t(old(self)@, id, offset, bytes@));
                    self.lemma_write_wf(old(self)@, id, offset, bytes@);
                }
                Ok(bytes.len())
            },
            None => {
                match dash::registry_get(&self.id_to_value, id) {
                    None => {
                        proof {
                            assert(self@ =~= old(self)@);
                        }
                        Err(FsError::NotFound)
                    },
                    Some(vs) => {
                        let key = match vs {
                            ValueState::ToRead { key } => key,
                            ValueState::Read { key, data: _ } => key,
                        };
                        let mode = if offset == 0 {
                            WriteMode::Overwrite
                        } else {
                            WriteMode::Append(offset)
                        };
                        let mut data: Vec<u8> = Vec::new();
                        push_all(&mut data, bytes);
                        let fresh = WriteBuffer { mode, key, buffer: data };
                        let ghost fb = fresh_buffer(
                            state_key(old(self)@.registry[id]),
                            offset,
                            bytes@,
                        );
                        proof {
                            assert(fresh@ =~= fb);
                        }
                        dash::buffers_insert(&mut self.write_buffers, id, fresh);
                        proof {
                            lemma_remove_insert(old(self)@.buffers, id, fb);
                            assert(self@ =~= write_t(old(self)@, id, offset, bytes@));
                            self.lemma_write_wf(old(self)@, id, offset, bytes@);
                        }
                        Ok(bytes.len())
                    },
                }
            },
        }
    }

    proof fn lemma_write_wf(&self, s0: DriverView, id: u64, offset: u64, bytes: Seq<u8>)
        requires
            s0.wf(),
            write_ok(s0, id),
            self@ == write_t(s0, id, offset, bytes),
        ensures
            self@.wf(),
    {
        let s1 = self@;
        assert forall|j: u64| #[trigger] s1.buffers.contains_key(j) implies FIRST_DYNAMIC_ID <= j
            < s1.next_id by {
            if j != id {
                assert(s0.buffers.contains_key(j));
            } else {
                if s0.buffers.contains_key(id) {
                } else {
                    assert(s0.registry.contains_key(id));
                }
            }
        }
        assert forall|j: u64|
            s1.registry.contains_key(j) && #[trigger] s1.buffers.contains_key(j)
                implies s1.buffers[j].key == state_key(s1.registry[j]) by {
            if j != id {
                assert(s0.buffers.contains_key(j) && s0.registry.contains_key(j));
            } else {
                if s0.buffers.contains_key(id) {
                    assert(s0.registry.contains_key(id));
                    assert(s0.buffers[id].key == state_key(s0.registry[id]));
                }
            }
        }
    }

    /// Flush: drains the identifier's buffer and hands back the command the
    /// store must run to commit it. Fails with NotFound — and commits
    /// nothing — when no buffer is pending, so a second flush in a row
    /// always fails.
    pub fn flush_write_buffer(&mut self, id: u64) -> (r: Result<FlushCommand, FsError>)
        requires
            old(self)@.wf(),
        ensures
            final(self)@.wf(),
            final(self)@ == flush_t(old(self)@, id),
            r matches Ok(cmd) ==> old(self)@.buffers.contains_key(id) && cmd@ == flush_command(
                old(self)@.buffers[id],
            ),
            r matches Err(e) ==> !old(self)@.buffers.contains_key(id) && e == FsError::NotFound,
    {
        let taken = dash::buffers_take(&mut self.write_buffers, id);
        proof {
            assert(self@ =~= flush_t(old(self)@, id));
            assert forall|j: u64| #[trigger] self@.buffers.contains_key(j)
                implies FIRST_DYNAMIC_ID <= j < self@.next_id by {
                assert(old(self)@.buffers.contains_key(j));
            }
            assert forall|j: u64|
                self@.registry.contains_key(j) && #[trigger] self@.buffers.contains_key(j)
                    implies self@.buffers[j].key == state_key(self@.registry[j]) by {
                assert(old(self)@.buffers.contains_key(j));
            }
        }
        match taken {
            None => Err(FsError::NotFound),
            Some(b) => {
                let cmd = match b.mode {
                    WriteMode::Overwrite => FlushCommand::Overwrite { key: b.key, value: b.buffer },
                    WriteMode::Append(x) => FlushCommand::Splice {
                        key: b.key,
                        offset: x,
                        data: b.buffer,
                    },
                };
                Ok(cmd)
            },
        }
    }

    /// The value an Append-at commit stores: `current` (what the store holds
    /// at flush time; absent reads as empty) truncated to `offset` bytes,
    /// then the buffered bytes.
    pub fn splice_value(current: Vec<u8>, offset: u64, data: &Vec<u8>) -> (r: Vec<u8>)
        ensures
            r@ == spliced(current@, offset, data@),
    {
        let ghost c0 = current@;
        let mut v = current;
        if offset < v.len() as u64 {
            v.truncate(offset as usize);
        }
        proof {
            if offset >= c0.len() {
                assert(v@ =~= c0.take(c0.len() as int));
            }
        }
        push_all(&mut v, data.as_slice());
        v
    }

    /// Read step: serves the requested window straight from the cache, or
    /// names the key the store must be asked for when the value is not yet
    /// loaded. Fails with NotFound when the identifier is unknown or the
    /// offset lies past the end of the cached value.
    pub fn read(&self, id: u64, offset: u64, size: u32) -> (r: Result<ReadStep, FsError>)
        ensures
            match r {
                Ok(step) => self@.registry.contains_key(id) && match step {
                    ReadStep::Fetch(k) => self@.registry[id] is ToRead && k@ == state_key(
                        self@.registry[id],
                    ),
                    ReadStep::Data(d) => self@.registry[id] is Read && offset <= state_data(
                        self@.registry[id],
                    ).len() && d@ == window(state_data(self@.registry[id]), offset, size),
                },
                Err(e) => read_rejected(self@, id, offset) && e == FsError::NotFound,
            },
    {
        match dash::registry_get(&self.id_to_value, id) {
            None => Err(FsError::NotFound),
            Some(ValueState::ToRead { key }) => Ok(ReadStep::Fetch(key)),
            Some(ValueState::Read { key: _, data }) => {
                if offset > data.len() as u64 {
                    Err(FsError::NotFound)
                } else {
                    Ok(ReadStep::Data(copy_window(&data, offset, size)))
                }
            },
        }
    }

    /// Read completion: takes the store's answer for the identifier's key.
    /// On success the fetched value is cached under the identifier —
    /// Unloaded becomes Loaded — and the requested window of it is
    /// returned. An absent key, a vanished identifier, or an offset past
    /// the end of the fetched value fails with NotFound and changes
    /// nothing.
    pub fn read_fetched(
        &mut self,
        id: u64,
        offset: u64,
        size: u32,
        fetched: Option<Vec<u8>>,
    ) -> (r: Result<Vec<u8>, FsError>)
        requires
            old(self)@.wf(),
        ensures
            final(self)@.wf(),
            final(self)@ == read_fetched_t(old(self)@, id, offset, opt_bytes(fetched)),
            r matches Ok(d) ==> read_fetched_ok(old(self)@, id, offset, opt_bytes(fetched))
                && d@ == window(opt_bytes(fetched).unwrap(), offset, size),
            r matches Err(e) ==> !read_fetched_ok(old(self)@, id, offset, opt_bytes(fetched))
                && e == FsError::NotFound,
    {
        match fetched {
            None => Err(FsError::NotFound),
            Some(value) => {
                match dash::registry_get(&self.id_to_value, id) {
                    None => Err(FsError::NotFound),
                    Some(vs) => {
                        if offset > value.len() as u64 {
                            Err(FsError::NotFound)
                        } else {
                            let out = copy_window(&value, offset, size);
                            let key = match vs {
                                ValueState::ToRead { key } => key,
                                ValueState::Read { key, data: _ } => key,
                            };
                            dash::registry_insert(
                                &mut self.id_to_value,
                                id,
                                ValueState::Read { key, data: value },
                            );
                            proof {
                                let s0 = old(self)@;
                                let s1 = self@;
                                assert(s1 =~= read_fetched_t(
                                    s0,
                                    id,
                                    offset,
                                    opt_bytes(fetched),
                                ));
                                assert forall|j: u64| #[trigger] s1.registry.contains_key(j)
                                    implies FIRST_DYNAMIC_ID <= j < s1.next_id by {
                                    assert(s0.registry.contains_key(j));
                                }
                                assert forall|j: u64|
                                    s1.registry.contains_key(j) && #[trigger] s1.buffers
                                        .contains_key(j) implies s1.buffers[j].key == state_key(
                                        s1.registry[j],
                                    ) by {
                                    assert(s0.registry.contains_key(j) && s0.buffers.contains_key(
                                        j,
                                    ));
                                }
                            }
                            Ok(out)
                        }
                    },
                }
            },
        }
    }

    /// Close: removes the identifier's cached state, and drains its write
    /// buffer when one is pending so the caller can commit it best-effort.
    /// Close itself never fails; a missing buffer simply yields nothing.
    pub fn close(&mut self, id: u64) -> (r: Option<FlushCommand>)
        requires
            old(self)@.wf(),
        ensures
            final(self)@.wf(),
            final(self)@ == close_t(old(self)@, id),
            r matches Some(cmd) ==> old(self)@.buffers.contains_key(id) && cmd@ == flush_command(
                old(self)@.buffers[id],
            ),
            r is None ==> !old(self)@.buffers.contains_key(id),
    {
        let _ = dash::registry_remove(&mut self.id_to_value, id);
        proof {
            assert forall|j: u64| #[trigger] self@.registry.contains_key(j)
                implies FIRST_DYNAMIC_ID <= j < self@.next_id by {
                assert(old(self)@.registry.contains_key(j));
            }
            assert forall|j: u64|
                self@.registry.contains_key(j) && #[trigger] self@.buffers.contains_key(j)
                    implies self@.buffers[j].key == state_key(self@.registry[j]) by {
                assert(old(self)@.registry.contains_key(j));
            }
        }
        let r = match self.flush_write_buffer(id) {
            Ok(cmd) => Some(cmd),
            Err(_) => None,
        };
        proof {
            assert(self@ =~= close_t(old(self)@, id));
        }
        r
    }

    /// Whether the registry currently knows the identifier.
    pub fn knows_id(&self, id: u64) -> (b: bool)
        ensures
            b == self@.registry.contains_key(id),
    {
        match dash::registry_get(&self.id_to_value, id) {
            Some(_) => true,
            None => false,
        }
    }

    /// Whether the counter still has room for `count` more identifiers.
    pub fn can_allocate(&self, count: u64) -> (b: bool)
        ensures
            b == (self@.next_id + count <= u64::MAX),
    {
        count <= u64::MAX - self.next_id
    }

    /// Enumeration bookkeeping: registers every listed key under a fresh
    /// identifier — the counter advances by the whole batch in one step —
    /// and returns the (identifier, key) pairs in store-listing order.
    /// Keys are not deduplicated: a key listed again later gets a fresh
    /// identifier.
    pub fn all_keys(&mut self, keys: Vec<String>) -> (r: Vec<(u64, String)>)
        requires
            old(self)@.wf(),
            old(self)@.next_id + keys@.len() <= u64::MAX,
        ensures
            final(self)@.wf(),
            final(self)@.next_id == old(self)@.next_id + keys@.len(),
            final(self)@.buffers == old(self)@.buffers,
            r@.len() == keys@.len(),
            forall|i: int|
                0 <= i < keys@.len() ==> (#[trigger] r@[i]).0 == old(self)@.next_id + i
                    && r@[i].1@ == keys@[i]@,
            forall|j: u64| #[trigger]
                old(self)@.registry.contains_key(j) ==> final(self)@.registry.contains_key(j)
                    && final(self)@.registry[j] == old(self)@.registry[j],
            forall|j: u64|
                old(self)@.next_id <= j < old(self)@.next_id + keys@.len()
                    ==> #[trigger] final(self)@.registry.contains_key(j)
                    && final(self)@.registry[j] == (ValueStateView::ToRead {
                    key: keys@[j - old(self)@.next_id]@,
                }),
            forall|j: u64| #[trigger]
                final(self)@.registry.contains_key(j) ==> old(self)@.registry.contains_key(j)
                    || old(self)@.next_id <= j < old(self)@.next_id + keys@.len(),
    {
        let base = self.next_id;
        let n = keys.len();
        self.next_id = base + n as u64;
        let mut out: Vec<(u64, String)> = Vec::new();
        let mut i: usize = 0;
        while i < n
            invariant
                n == keys@.len(),
                i <= n,
                base + n <= u64::MAX,
                self@.next_id == base + n,
                self@.buffers == old(self)@.buffers,
                old(self)@.wf(),
                old(self)@.next_id == base,
                out@.len() == i,
                forall|k: int|
                    0 <= k < i ==> (#[trigger] out@[k]).0 == base + k && out@[k].1@ == keys@[k]@,
                forall|j: u64| #[trigger]
                    old(self)@.registry.contains_key(j) ==> self@.registry.contains_key(j)
                        && self@.registry[j] == old(self)@.registry[j],
                forall|j: u64|
                    base <= j < base + i ==> #[trigger] self@.registry.contains_key(j)
                        && self@.registry[j] == (ValueStateView::ToRead {
                        key: keys@[j - base]@,
                    }),
                forall|j: u64| #[trigger]
                    self@.registry.contains_key(j) ==> old(self)@.registry.contains_key(j) || base
                        <= j < base + i,
            decreases n - i,
        {
            let id = base + i as u64;
            let key_out = keys[i].clone();
            let key_in = keys[i].clone();
            let ghost reg0 = self@.registry;
            dash::registry_insert(&mut self.id_to_value, id, ValueState::ToRead { key: key_in });
            out.push((id, key_out));
            proof {
                assert(out@[i as int] == (id, key_out));
                assert(self@.registry == reg0.insert(
                    id,
                    ValueStateView::ToRead { key: keys@[i as int]@ },
                ));
                assert forall|j: u64|
                    base <= j < base + (i + 1) implies #[trigger] self@.registry.contains_key(j)
                        && self@.registry[j] == (ValueStateView::ToRead {
                        key: keys@[j - base]@,
                    }) by {
                    if j == id {
                        assert(j - base == i as int);
                    } else {
                        assert(base <= j < base + i);
                        assert(reg0.contains_key(j));
                        assert(self@.registry[j] == reg0[j]);
                    }
                }
                assert forall|j: u64| #[trigger] self@.registry.contains_key(j)
                    implies old(self)@.registry.contains_key(j) || base <= j < base + (i + 1) by {
                    if j != id {
                        assert(reg0.contains_key(j));
                    }
                }
            }
            i += 1;
        }
        proof {
            let s1 = self@;
            assert forall|j: u64| #[trigger] s1.registry.contains_key(j)
                implies FIRST_DYNAMIC_ID <= j < s1.next_id by {
                if old(self)@.registry.contains_key(j) {
                } else {
                    assert(base <= j < base + n);
                }
            }
            assert forall|j: u64| #[trigger] s1.buffers.contains_key(j) implies FIRST_DYNAMIC_ID
                <= j < s1.next_id by {
                assert(old(self)@.buffers.contains_key(j));
            }
            assert forall|j: u64|
                s1.registry.contains_key(j) && #[trigger] s1.buffers.contains_key(j)
                    implies s1.buffers[j].key == state_key(s1.registry[j]) by {
                assert(old(self)@.buffers.contains_key(j));
                assert(j < base);
                assert(old(self)@.registry.contains_key(j));
            }
        }
        out
    }
}

} // verus!
