//! The data model of the driver: value states, write buffers, flush
//! commands, and the mathematical view of the whole driver state, together
//! with the spec-level transitions that the executable operations implement.

use vstd::prelude::*;

verus! {

/// The filesystem root directory identifier.
pub const ROOT_ID: u64 = 1;

/// A reserved legacy placeholder identifier, never allocated to a key.
pub const LEGACY_ID: u64 = 2;

/// The first identifier the allocation counter may hand out; everything
/// below it is reserved.
pub const FIRST_DYNAMIC_ID: u64 = 5;

/// Cache status of one identifier's backing data: either only the owning
/// key is known, or the key together with the full value bytes fetched from
/// the store.
#[derive(Clone, Debug)]
pub enum ValueState {
    ToRead { key: String },
    Read { key: String, data: Vec<u8> },
}

/// Mathematical view of a `ValueState`.
pub enum ValueStateView {
    ToRead { key: Seq<char> },
    Read { key: Seq<char>, data: Seq<u8> },
}

impl View for ValueState {
    type V = ValueStateView;

    open spec fn view(&self) -> ValueStateView {
        match self {
            ValueState::ToRead { key } => ValueStateView::ToRead { key: key@ },
            ValueState::Read { key, data } => ValueStateView::Read { key: key@, data: data@ },
        }
    }
}

/// The key a value state belongs to.
pub open spec fn state_key(v: ValueStateView) -> Seq<char> {
    match v {
        ValueStateView::ToRead { key } => key,
        ValueStateView::Read { key, .. } => key,
    }
}

/// How a write buffer is committed: replace the whole stored value, or
/// splice the buffered bytes in at a fixed offset against the value present
/// in the store at flush time. Decided once, from the offset of the first
/// write on the identifier.
#[derive(Clone, Copy, Debug, PartialEq, Eq, Structural)]
pub enum WriteMode {
    Overwrite,
    Append(u64),
}

/// Accumulation of the bytes written to one identifier since its last
/// flush, in call order, together with the target key and the commit mode.
#[derive(Clone, Debug)]
pub struct WriteBuffer {
    pub mode: WriteMode,
    pub key: String,
    pub buffer: Vec<u8>,
}

/// Mathematical view of a `WriteBuffer`.
pub struct WriteBufferView {
    pub mode: WriteMode,
    pub key: Seq<char>,
    pub data: Seq<u8>,
}

impl View for WriteBuffer {
    type V = WriteBufferView;

    open spec fn view(&self) -> WriteBufferView {
        WriteBufferView { mode: self.mode, key: self.key@, data: self.buffer@ }
    }
}

/// What a flush asks of the store: either a single SET of the full value,
/// or a GET of the current value followed by a SET of the spliced result
/// (see `spliced`).
#[derive(Clone, Debug)]
pub enum FlushCommand {
    /// SET `key` to `value`, replacing whatever was stored.
    Overwrite { key: String, value: Vec<u8> },
    /// GET `key`, truncate the current value to `offset` bytes, append
    /// `data`, and SET the result.
    Splice { key: String, offset: u64, data: Vec<u8> },
}

/// Mathematical view of a `FlushCommand`.
pub enum FlushCommandView {
    Overwrite { key: Seq<char>, value: Seq<u8> },
    Splice { key: Seq<char>, offset: u64, data: Seq<u8> },
}

impl View for FlushCommand {
    type V = FlushCommandView;

    open spec fn view(&self) -> FlushCommandView {
        match self {
            FlushCommand::Overwrite { key, value } => FlushCommandView::Overwrite {
                key: key@,
                value: value@,
            },
            FlushCommand::Splice { key, offset, data } => FlushCommandView::Splice {
                key: key@,
                offset: *offset,
                data: data@,
            },
        }
    }
}

/// The buffer a first write with the given offset creates: offset zero
/// chooses Overwrite, a nonzero offset chooses Append-at(offset).
pub open spec fn fresh_buffer(key: Seq<char>, offset: u64, bytes: Seq<u8>) -> WriteBufferView {
    WriteBufferView {
        mode: if offset == 0 {
            WriteMode::Overwrite
        } else {
            WriteMode::Append(offset)
        },
        key: key,
        data: bytes,
    }
}

/// A buffer after one more write: the new bytes go to the end, whatever
/// offset the write reported; mode and key never change.
pub open spec fn appended(b: WriteBufferView, bytes: Seq<u8>) -> WriteBufferView {
    WriteBufferView { mode: b.mode, key: b.key, data: b.data + bytes }
}

/// The store command a buffer commits to.
pub open spec fn flush_command(b: WriteBufferView) -> FlushCommandView {
    match b.mode {
        WriteMode::Overwrite => FlushCommandView::Overwrite { key: b.key, value: b.data },
        WriteMode::Append(offset) => FlushCommandView::Splice {
            key: b.key,
            offset: offset,
            data: b.data,
        },
    }
}

/// The stored value after an Append-at commit: the current value truncated
/// to `offset` bytes (to its own length, where it is shorter), then the
/// buffered bytes.
pub open spec fn spliced(current: Seq<u8>, offset: u64, data: Seq<u8>) -> Seq<u8> {
    let keep = if offset <= current.len() {
        offset as int
    } else {
        current.len() as int
    };
    current.take(keep) + data
}

/// The bytes a read returns: at most `size` bytes of `data` starting at
/// `offset`. Meaningful only when `offset <= data.len()`.
pub open spec fn window(data: Seq<u8>, offset: u64, size: u32) -> Seq<u8> {
    let avail = data.len() - offset;
    let take = if size <= avail {
        size as int
    } else {
        avail as int
    };
    data.subrange(offset as int, offset + take)
}

/// The store's answer to a GET, as a mathematical value: the value bytes,
/// or nothing when the key is absent.
pub open spec fn opt_bytes(fetched: Option<Vec<u8>>) -> Option<Seq<u8>> {
    match fetched {
        Option::Some(v) => Option::Some(v@),
        Option::None => Option::None,
    }
}

/// Mathematical view of the whole driver: the allocation counter, the
/// identifier registry, and the write-buffer table.
#[verifier::ext_equal]
pub struct DriverView {
    pub next_id: u64,
    pub registry: Map<u64, ValueStateView>,
    pub buffers: Map<u64, WriteBufferView>,
}

impl DriverView {
    /// Well-formedness: every live identifier was drawn from the counter
    /// (so it sits between the reserved range and the counter's current
    /// value), and a write buffer that coexists with a registry entry
    /// targets that entry's key.
    pub open spec fn wf(self) -> bool {
        &&& FIRST_DYNAMIC_ID <= self.next_id
        &&& forall|id: u64|
            #[trigger] self.registry.contains_key(id) ==> FIRST_DYNAMIC_ID <= id
                < self.next_id
        &&& forall|id: u64|
            #[trigger] self.buffers.contains_key(id) ==> FIRST_DYNAMIC_ID <= id < self.next_id
        &&& forall|id: u64|
            self.registry.contains_key(id) && #[trigger] self.buffers.contains_key(id)
                ==> self.buffers[id].key == state_key(self.registry[id])
    }
}

/// Allocation: insert a fresh Unloaded entry for `key` under the counter's
/// value and advance the counter. Meaningful only when the counter has room.
pub open spec fn alloc_t(s: DriverView, key: Seq<char>) -> DriverView {
    DriverView {
        next_id: (s.next_id + 1) as u64,
        registry: s.registry.insert(s.next_id, ValueStateView::ToRead { key }),
        buffers: s.buffers,
    }
}

/// Whether a write on `id` is accepted: it is, exactly when a buffer
/// already exists or the registry knows the identifier.
pub open spec fn write_ok(s: DriverView, id: u64) -> bool {
    s.buffers.contains_key(id) || s.registry.contains_key(id)
}

/// A write on `id`: append to the existing buffer, or create a fresh one
/// for the identifier's key; reject when the identifier is unknown.
pub open spec fn write_t(s: DriverView, id: u64, offset: u64, bytes: Seq<u8>) -> DriverView {
    if s.buffers.contains_key(id) {
        DriverView { buffers: s.buffers.insert(id, appended(s.buffers[id], bytes)), ..s }
    } else if s.registry.contains_key(id) {
        DriverView {
            buffers: s.buffers.insert(
                id,
                fresh_buffer(state_key(s.registry[id]), offset, bytes),
            ),
            ..s
        }
    } else {
        s
    }
}

/// A flush on `id` drains the buffer; the registry and the counter are
/// untouched.
pub open spec fn flush_t(s: DriverView, id: u64) -> DriverView {
    DriverView { buffers: s.buffers.remove(id), ..s }
}

/// Whether completing a read with the store's answer succeeds: the
/// identifier must still be live, the key must have been present, and the
/// offset must not lie past the end of the fetched value.
pub open spec fn read_fetched_ok(
    s: DriverView,
    id: u64,
    offset: u64,
    fetched: Option<Seq<u8>>,
) -> bool {
    &&& s.registry.contains_key(id)
    &&& fetched is Some
    &&& offset <= fetched.unwrap().len()
}

/// Completing a read with the store's answer: on success the fetched bytes
/// are cached under the identifier's key (Unloaded becomes Loaded); any
/// failure leaves the state as it was.
pub open spec fn read_fetched_t(
    s: DriverView,
    id: u64,
    offset: u64,
    fetched: Option<Seq<u8>>,
) -> DriverView {
    if read_fetched_ok(s, id, offset, fetched) {
        DriverView {
            registry: s.registry.insert(
                id,
                ValueStateView::Read {
                    key: state_key(s.registry[id]),
                    data: fetched.unwrap(),
                },
            ),
            ..s
        }
    } else {
        s
    }
}

/// Closing an identifier: its registry entry and its write buffer (if any)
/// are both gone; the counter never goes back.
pub open spec fn close_t(s: DriverView, id: u64) -> DriverView {
    DriverView { registry: s.registry.remove(id), buffers: s.buffers.remove(id), ..s }
}

} // verus!
