//! The filesystem operation handler: translates protocol operations into
//! registry, buffer and enumeration steps, and builds the replies.
//!
//! Replies carry plain values only; the surrounding runtime turns them into
//! protocol messages (and stamps the volatile pieces such as timestamps).
//! The reported file size is a fixed ceiling, not the true value length, so
//! reads near the true end return short — callers of the protocol tolerate
//! short reads by design.

use vstd::prelude::*;

use crate::driver::{ReadStep, RedisDriver};
use crate::errors::FsError;
use crate::state::{
    alloc_t, flush_command, flush_t, opt_bytes, read_fetched_ok, read_fetched_t, state_key,
    window, write_ok, write_t, FlushCommand, ValueStateView, ROOT_ID,
};

verus! {

/// Permission bits reported for the root directory.
pub const PARENT_MODE: u16 = 0o755;

/// Permission bits reported for every file.
pub const FILE_MODE: u16 = 0o644;

/// How long, in seconds, a reply may be cached by the kernel.
pub const TTL_SECS: u64 = 1;

/// The fixed size ceiling reported for every file: the largest value the
/// store accepts. The true length of a value is unknown until it is read.
pub const MAX_SIZE: u64 = 512 * 1024;

/// What kind of directory entry a reply describes.
#[derive(Clone, Copy, Debug, PartialEq, Eq, Structural)]
pub enum EntryKind {
    Directory,
    RegularFile,
}

/// The metadata reported for an identifier. Timestamps are deliberately
/// absent: they are stamped with the current time at the protocol edge.
#[derive(Clone, Copy, Debug, PartialEq, Eq, Structural)]
pub struct FileAttr {
    pub ino: u64,
    pub size: u64,
    pub blocks: u64,
    pub kind: EntryKind,
    pub perm: u16,
    pub nlink: u32,
    pub uid: u32,
    pub gid: u32,
    pub rdev: u32,
    pub blksize: u32,
}

/// The attributes every file identifier reports: a fixed size ceiling and
/// fixed permissions.
pub open spec fn spec_file_attr(ino: u64) -> FileAttr {
    FileAttr {
        ino,
        size: MAX_SIZE,
        blocks: 0,
        kind: EntryKind::RegularFile,
        perm: FILE_MODE,
        nlink: 0,
        uid: 0,
        gid: 0,
        rdev: 0,
        blksize: 0,
    }
}

/// The attributes the root directory reports.
pub open spec fn spec_dir_attr() -> FileAttr {
    FileAttr {
        ino: ROOT_ID,
        size: 0,
        blocks: 1,
        kind: EntryKind::Directory,
        perm: PARENT_MODE,
        nlink: 0,
        uid: 0,
        gid: 0,
        rdev: 0,
        blksize: 0,
    }
}

/// The attributes the enumeration reports for the root's own entry.
pub open spec fn spec_root_entry_attr() -> FileAttr {
    FileAttr {
        ino: ROOT_ID,
        size: 0,
        blocks: 0,
        kind: EntryKind::Directory,
        perm: PARENT_MODE,
        nlink: 0,
        uid: 0,
        gid: 0,
        rdev: 0,
        blksize: 0,
    }
}

fn file_attr(ino: u64) -> (a: FileAttr)
    ensures
        a == spec_file_attr(ino),
{
    FileAttr {
        ino,
        size: MAX_SIZE,
        blocks: 0,
        kind: EntryKind::RegularFile,
        perm: FILE_MODE,
        nlink: 0,
        uid: 0,
        gid: 0,
        rdev: 0,
        blksize: 0,
    }
}

/// Reply to a lookup: the new identifier's metadata.
#[derive(Clone, Copy, Debug, PartialEq, Eq, Structural)]
pub struct EntryReply {
    pub ttl_secs: u64,
    pub attr: FileAttr,
    pub generation: u64,
}

/// Reply to a getattr.
#[derive(Clone, Copy, Debug, PartialEq, Eq, Structural)]
pub struct AttrReply {
    pub ttl_secs: u64,
    pub attr: FileAttr,
}

/// Reply to an open: the handle is the identifier itself.
#[derive(Clone, Copy, Debug, PartialEq, Eq, Structural)]
pub struct OpenReply {
    pub fh: u64,
    pub flags: u32,
}

/// One directory entry of a plain enumeration.
#[derive(Debug)]
pub struct DirEntry {
    pub inode: u64,
    pub kind: EntryKind,
    pub name: String,
    pub offset: i64,
}

/// One directory entry of an enumeration that also carries attributes.
#[derive(Debug)]
pub struct DirEntryPlus {
    pub inode: u64,
    pub generation: u64,
    pub kind: EntryKind,
    pub name: String,
    pub offset: u64,
    pub attr: FileAttr,
    pub entry_ttl_secs: u64,
    pub attr_ttl_secs: u64,
}

/// What the `t`-th entry of the full root listing must look like: `.` and
/// `..` first, then one file entry per listed key, in store-listing order,
/// with identifiers drawn in that same order starting at `base`.
pub open spec fn readdir_entry_ok(e: DirEntry, base: u64, keys: Seq<String>, t: int) -> bool {
    if t == 0 {
        e.inode == ROOT_ID && e.kind == EntryKind::Directory && e.name@ == "."@ && e.offset == 1
    } else if t == 1 {
        e.inode == ROOT_ID && e.kind == EntryKind::Directory && e.name@ == ".."@ && e.offset == 2
    } else {
        e.inode == base + (t - 2) && e.kind == EntryKind::RegularFile && e.name@ == keys[t - 2]@
            && e.offset == t + 1
    }
}

/// What the `t`-th entry of the full attribute-carrying root listing must
/// look like: `.` and `..` first, then one file entry per listed key with
/// the fixed file attributes.
pub open spec fn readdirplus_entry_ok(e: DirEntryPlus, base: u64, keys: Seq<String>, t: int) -> bool {
    if t == 0 {
        e.inode == ROOT_ID && e.generation == 0 && e.kind == EntryKind::Directory && e.name@
            == "."@ && e.offset == 1 && e.attr == spec_root_entry_attr() && e.entry_ttl_secs
            == TTL_SECS && e.attr_ttl_secs == TTL_SECS
    } else if t == 1 {
        e.inode == ROOT_ID && e.generation == 0 && e.kind == EntryKind::Directory && e.name@
            == ".."@ && e.offset == 2 && e.attr == spec_root_entry_attr() && e.entry_ttl_secs
            == TTL_SECS && e.attr_ttl_secs == TTL_SECS
    } else {
        e.inode == base + (t - 2) && e.generation == 1 && e.kind == EntryKind::RegularFile
            && e.name@ == keys[t - 2]@ && e.offset == t + 1 && e.attr == spec_file_attr(
            (base + (t - 2)) as u64,
        ) && e.entry_ttl_secs == TTL_SECS && e.attr_ttl_secs == TTL_SECS
    }
}

/// Reply to a statfs: capacity accounting.
#[derive(Clone, Copy, Debug, PartialEq, Eq, Structural)]
pub struct StatFsReply {
    pub blocks: u64,
    pub bfree: u64,
    pub bavail: u64,
    pub files: u64,
    pub ffree: u64,
    pub bsize: u32,
    pub namelen: u32,
    pub frsize: u32,
}

/// The fixed, nominal capacity the filesystem reports: the store has no
/// meaningful block or inode accounting.
pub open spec fn spec_statfs() -> StatFsReply {
    StatFsReply {
        blocks: 1000000,
        bfree: 1000000,
        bavail: 1000000,
        files: 1000000,
        ffree: 1000000,
        bsize: 4096,
        namelen: 255,
        frsize: 4096,
    }
}

/// The filesystem seen by the kernel: one flat root directory whose files
/// are the store's keys, backed by the driver's session state.
pub struct RedisFS {
    pub driver: RedisDriver,
}

impl RedisFS {
    /// A filesystem over a fresh driver session.
    pub fn new() -> (fs: RedisFS)
        ensures
            fs.driver@.wf(),
            fs.driver@.next_id == crate::state::FIRST_DYNAMIC_ID,
            fs.driver@.registry =~= Map::empty(),
            fs.driver@.buffers =~= Map::empty(),
    {
        RedisFS { driver: RedisDriver::new() }
    }

    /// Mount negotiation: the largest write the filesystem accepts, which
    /// is the store's value size ceiling.
    pub fn init(&self) -> (max_write: u32)
        ensures
            max_write == MAX_SIZE,
    {
        MAX_SIZE as u32
    }

    /// Lookup of `name` under `parent`: only the root has children; any
    /// other parent is unknown. A hit allocates a fresh identifier for the
    /// name — without asking the store whether the key exists — and
    /// reports the fixed file metadata for it.
    pub fn lookup(&mut self, parent: u64, name: &str) -> (r: Result<EntryReply, FsError>)
        requires
            old(self).driver@.wf(),
            parent == ROOT_ID ==> old(self).driver@.next_id < u64::MAX,
        ensures
            final(self).driver@.wf(),
            parent != ROOT_ID ==> ({
                &&& final(self).driver@ == old(self).driver@
                &&& r matches Err(e)
                &&& e == FsError::NotFound
            }),
            parent == ROOT_ID ==> ({
                &&& final(self).driver@ == alloc_t(old(self).driver@, name@)
                &&& r matches Ok(rep)
                &&& rep == (EntryReply {
                    ttl_secs: TTL_SECS,
                    attr: spec_file_attr(old(self).driver@.next_id),
                    generation: 0,
                })
            }),
    {
        if parent != ROOT_ID {
            return Err(FsError::NotFound);
        }
        let id = self.driver.open_key(name);
        Ok(EntryReply { ttl_secs: TTL_SECS, attr: file_attr(id), generation: 0 })
    }

    /// Attributes of an identifier: the root reports directory metadata;
    /// every other identifier reports the fixed file metadata with the size
    /// ceiling. Never fails.
    pub fn getattr(&self, inode: u64) -> (r: AttrReply)
        ensures
            inode == ROOT_ID ==> r == (AttrReply { ttl_secs: TTL_SECS, attr: spec_dir_attr() }),
            inode != ROOT_ID ==> r == (AttrReply {
                ttl_secs: TTL_SECS,
                attr: spec_file_attr(inode),
            }),
    {
        if inode == ROOT_ID {
            AttrReply {
                ttl_secs: TTL_SECS,
                attr: FileAttr {
                    ino: ROOT_ID,
                    size: 0,
                    blocks: 1,
                    kind: EntryKind::Directory,
                    perm: PARENT_MODE,
                    nlink: 0,
                    uid: 0,
                    gid: 0,
                    rdev: 0,
                    blksize: 0,
                },
            }
        } else {
            AttrReply { ttl_secs: TTL_SECS, attr: file_attr(inode) }
        }
    }

    /// Open: the handle handed back is the identifier itself, with the
    /// flags echoed. Never fails.
    pub fn open(&self, inode: u64, flags: u32) -> (r: OpenReply)
        ensures
            r == (OpenReply { fh: inode, flags }),
    {
        OpenReply { fh: inode, flags }
    }

    /// Read step on a handle: the window straight from the cache, or the
    /// key the store must be asked for (see the driver's read).
    pub fn read(&self, fh: u64, offset: u64, size: u32) -> (r: Result<ReadStep, FsError>)
        ensures
            match r {
                Ok(step) => self.driver@.registry.contains_key(fh) && match step {
                    ReadStep::Fetch(k) => self.driver@.registry[fh] is ToRead && k@ == state_key(
                        self.driver@.registry[fh],
                    ),
                    ReadStep::Data(d) => self.driver@.registry[fh] is Read && offset
                        <= crate::driver::state_data(self.driver@.registry[fh]).len() && d@
                        == window(crate::driver::state_data(self.driver@.registry[fh]), offset, size),
                },
                Err(e) => crate::driver::read_rejected(self.driver@, fh, offset) && e
                    == FsError::NotFound,
            },
    {
        self.driver.read(fh, offset, size)
    }

    /// Read completion with the store's answer (see the driver's
    /// read_fetched).
    pub fn read_fetched(
        &mut self,
        fh: u64,
        offset: u64,
        size: u32,
        fetched: Option<Vec<u8>>,
    ) -> (r: Result<Vec<u8>, FsError>)
        requires
            old(self).driver@.wf(),
        ensures
            final(self).driver@.wf(),
            final(self).driver@ == read_fetched_t(old(self).driver@, fh, offset, opt_bytes(fetched)),
            r matches Ok(d) ==> read_fetched_ok(old(self).driver@, fh, offset, opt_bytes(fetched))
                && d@ == window(opt_bytes(fetched).unwrap(), offset, size),
            r matches Err(e) ==> !read_fetched_ok(old(self).driver@, fh, offset, opt_bytes(fetched))
                && e == FsError::NotFound,
    {
        self.driver.read_fetched(fh, offset, size, fetched)
    }

    /// Write on a handle: buffers the bytes (see the driver's write) and
    /// reports how many were accepted — always all of them.
    pub fn write(&mut self, fh: u64, offset: u64, data: &[u8]) -> (r: Result<u32, FsError>)
        requires
            old(self).driver@.wf(),
            data@.len() <= u32::MAX,
        ensures
            final(self).driver@.wf(),
            final(self).driver@ == write_t(old(self).driver@, fh, offset, data@),
            r matches Ok(n) ==> write_ok(old(self).driver@, fh) && n == data@.len(),
            r matches Err(e) ==> !write_ok(old(self).driver@, fh) && e == FsError::NotFound,
    {
        match self.driver.write(fh, offset, data) {
            Ok(n) => Ok(n as u32),
            Err(e) => Err(e),
        }
    }

    /// Flush on a handle: drains the pending buffer and hands back the
    /// commit command for the store. At this boundary the absence of a
    /// pending buffer is tolerated as success with nothing to commit.
    pub fn flush(&mut self, fh: u64) -> (r: Option<FlushCommand>)
        requires
            old(self).driver@.wf(),
        ensures
            final(self).driver@.wf(),
            final(self).driver@ == flush_t(old(self).driver@, fh),
            r matches Some(cmd) ==> old(self).driver@.buffers.contains_key(fh) && cmd@
                == flush_command(old(self).driver@.buffers[fh]),
            r is None ==> !old(self).driver@.buffers.contains_key(fh),
    {
        match self.driver.flush_write_buffer(fh) {
            Ok(cmd) => Some(cmd),
            Err(_) => None,
        }
    }

    /// Capacity summary: a fixed, nominal capacity, whatever the store
    /// holds. Never fails.
    pub fn statfs(&self) -> (r: StatFsReply)
        ensures
            r == spec_statfs(),
    {
        StatFsReply {
            blocks: 1000000,
            bfree: 1000000,
            bavail: 1000000,
            files: 1000000,
            ffree: 1000000,
            bsize: 4096,
            namelen: 255,
            frsize: 4096,
        }
    }

    /// Access check: the root and every identifier the registry knows are
    /// reachable; anything else is unknown.
    pub fn access(&self, inode: u64) -> (r: Result<(), FsError>)
        ensures
            r is Ok <==> inode == ROOT_ID || self.driver@.registry.contains_key(inode),
            r matches Err(e) ==> e == FsError::NotFound,
    {
        if inode == ROOT_ID {
            return Ok(());
        }
        if self.driver.knows_id(inode) {
            Ok(())
        } else {
            Err(FsError::NotFound)
        }
    }

    /// Root enumeration: registers every listed key under a fresh
    /// identifier, then yields `.`, `..` and one entry per key, skipping
    /// the first `skip` entries of that full listing for pagination. Any
    /// parent but the root is unknown.
    pub fn readdir(&mut self, inode: u64, keys: Vec<String>, skip: u64) -> (r: Result<
        Vec<DirEntry>,
        FsError,
    >)
        requires
            old(self).driver@.wf(),
            inode == ROOT_ID ==> old(self).driver@.next_id + keys@.len() <= u64::MAX,
            inode == ROOT_ID ==> keys@.len() + 2 <= i64::MAX,
            inode == ROOT_ID ==> keys@.len() + 2 <= usize::MAX,
        ensures
            final(self).driver@.wf(),
            inode != ROOT_ID ==> ({
                &&& final(self).driver@ == old(self).driver@
                &&& r matches Err(e)
                &&& e == FsError::NotFound
            }),
            inode == ROOT_ID ==> final(self).driver@.next_id == old(self).driver@.next_id
                + keys@.len() && final(self).driver@.buffers == old(self).driver@.buffers,
            inode == ROOT_ID ==> forall|j: u64| #[trigger]
                old(self).driver@.registry.contains_key(j)
                    ==> final(self).driver@.registry.contains_key(j)
                    && final(self).driver@.registry[j] == old(self).driver@.registry[j],
            inode == ROOT_ID ==> forall|j: u64|
                old(self).driver@.next_id <= j < old(self).driver@.next_id + keys@.len()
                    ==> #[trigger] final(self).driver@.registry.contains_key(j)
                    && final(self).driver@.registry[j] == (ValueStateView::ToRead {
                    key: keys@[j - old(self).driver@.next_id]@,
                }),
            inode == ROOT_ID ==> ({
                &&& r matches Ok(es)
                &&& {
                let total = keys@.len() + 2;
                let sk = if skip <= total {
                    skip as int
                } else {
                    total as int
                };
                &&& es@.len() == total - sk
                &&& forall|j: int|
                    0 <= j < es@.len() ==> readdir_entry_ok(
                        #[trigger] es@[j],
                        old(self).driver@.next_id,
                        keys@,
                        j + sk,
                    )
                }
            }),
    {
        if inode != ROOT_ID {
            return Err(FsError::NotFound);
        }
        let ghost base = self.driver@.next_id;
        let ghost kviews = keys@;
        let n = keys.len();
        let pairs = self.driver.all_keys(keys);
        let total = n + 2;
        let sk: usize = if skip <= total as u64 {
            skip as usize
        } else {
            total
        };
        let mut es: Vec<DirEntry> = Vec::new();
        let mut t: usize = sk;
        while t < total
            invariant
                total == n + 2,
                total <= i64::MAX,
                n == kviews.len(),
                n == pairs@.len(),
                sk <= t <= total,
                es@.len() == t - sk,
                forall|i: int|
                    0 <= i < n ==> (#[trigger] pairs@[i]).0 == base + i && pairs@[i].1@
                        == kviews[i]@,
                forall|j: int|
                    0 <= j < es@.len() ==> readdir_entry_ok(#[trigger] es@[j], base, kviews, j + sk),
            decreases total - t,
        {
            if t == 0 {
                es.push(DirEntry {
                    inode: ROOT_ID,
                    kind: EntryKind::Directory,
                    name: String::from_str("."),
                    offset: 1,
                });
            } else if t == 1 {
                es.push(DirEntry {
                    inode: ROOT_ID,
                    kind: EntryKind::Directory,
                    name: String::from_str(".."),
                    offset: 2,
                });
            } else {
                let id = pairs[t - 2].0;
                let name = pairs[t - 2].1.clone();
                es.push(DirEntry {
                    inode: id,
                    kind: EntryKind::RegularFile,
                    name,
                    offset: (t as i64) + 1,
                });
            }
            t += 1;
        }
        Ok(es)
    }

    /// Root enumeration with attributes: like readdir — `.` and `..`
    /// first, then the files — and every entry carries its attributes.
    pub fn readdirplus(&mut self, parent: u64, keys: Vec<String>, skip: u64) -> (r: Result<
        Vec<DirEntryPlus>,
        FsError,
    >)
        requires
            old(self).driver@.wf(),
            parent == ROOT_ID ==> old(self).driver@.next_id + keys@.len() <= u64::MAX,
            parent == ROOT_ID ==> keys@.len() + 2 <= i64::MAX,
            parent == ROOT_ID ==> keys@.len() + 2 <= usize::MAX,
        ensures
            final(self).driver@.wf(),
            parent != ROOT_ID ==> ({
                &&& final(self).driver@ == old(self).driver@
                &&& r matches Err(e)
                &&& e == FsError::NotFound
            }),
            parent == ROOT_ID ==> final(self).driver@.next_id == old(self).driver@.next_id
                + keys@.len() && final(self).driver@.buffers == old(self).driver@.buffers,
            parent == ROOT_ID ==> forall|j: u64| #[trigger]
                old(self).driver@.registry.contains_key(j)
                    ==> final(self).driver@.registry.contains_key(j)
                    && final(self).driver@.registry[j] == old(self).driver@.registry[j],
            parent == ROOT_ID ==> forall|j: u64|
                old(self).driver@.next_id <= j < old(self).driver@.next_id + keys@.len()
                    ==> #[trigger] final(self).driver@.registry.contains_key(j)
                    && final(self).driver@.registry[j] == (ValueStateView::ToRead {
                    key: keys@[j - old(self).driver@.next_id]@,
                }),
            parent == ROOT_ID ==> ({
                &&& r matches Ok(es)
                &&& {
                let total = keys@.len() + 2;
                let sk = if skip <= total {
                    skip as int
                } else {
                    total as int
                };
                &&& es@.len() == total - sk
                &&& forall|j: int|
                    0 <= j < es@.len() ==> readdirplus_entry_ok(
                        #[trigger] es@[j],
                        old(self).driver@.next_id,
                        keys@,
                        j + sk,
                    )
                }
            }),
    {
        if parent != ROOT_ID {
            return Err(FsError::NotFound);
        }
        let ghost base = self.driver@.next_id;
        let ghost kviews = keys@;
        let n = keys.len();
        let pairs = self.driver.all_keys(keys);
        let total = n + 2;
        let sk: usize = if skip <= total as u64 {
            skip as usize
        } else {
            total
        };
        let mut es: Vec<DirEntryPlus> = Vec::new();
        let mut t: usize = sk;
        while t < total
            invariant
                total == n + 2,
                total <= i64::MAX,
                n == kviews.len(),
                n == pairs@.len(),
                sk <= t <= total,
                es@.len() == t - sk,
                forall|i: int|
                    0 <= i < n ==> (#[trigger] pairs@[i]).0 == base + i && pairs@[i].1@
                        == kviews[i]@,
                forall|j: int|
                    0 <= j < es@.len() ==> readdirplus_entry_ok(
                        #[trigger] es@[j],
                        base,
                        kviews,
                        j + sk,
                    ),
            decreases total - t,
        {
            if t == 0 {
                es.push(DirEntryPlus {
                    inode: ROOT_ID,
                    generation: 0,
                    kind: EntryKind::Directory,
                    name: String::from_str("."),
                    offset: 1,
                    attr: FileAttr {
                        ino: ROOT_ID,
                        size: 0,
                        blocks: 0,
                        kind: EntryKind::Directory,
                        perm: PARENT_MODE,
                        nlink: 0,
                        uid: 0,
                        gid: 0,
                        rdev: 0,
                        blksize: 0,
                    },
                    entry_ttl_secs: TTL_SECS,
                    attr_ttl_secs: TTL_SECS,
                });
            } else if t == 1 {
                es.push(DirEntryPlus {
                    inode: ROOT_ID,
                    generation: 0,
                    kind: EntryKind::Directory,
                    name: String::from_str(".."),
                    offset: 2,
                    attr: FileAttr {
                        ino: ROOT_ID,
                        size: 0,
                        blocks: 0,
                        kind: EntryKind::Directory,
                        perm: PARENT_MODE,
                        nlink: 0,
                        uid: 0,
                        gid: 0,
                        rdev: 0,
                        blksize: 0,
                    },
                    entry_ttl_secs: TTL_SECS,
                    attr_ttl_secs: TTL_SECS,
                });
            } else {
                let id = pairs[t - 2].0;
                let name = pairs[t - 2].1.clone();
                es.push(DirEntryPlus {
                    inode: id,
                    generation: 1,
                    kind: EntryKind::RegularFile,
                    name,
                    offset: (t as u64) + 1,
                    attr: file_attr(id),
                    entry_ttl_secs: TTL_SECS,
                    attr_ttl_secs: TTL_SECS,
                });
            }
            t += 1;
        }
        Ok(es)
    }
}

} // verus!
