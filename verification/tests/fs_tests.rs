use redis_fs::driver::ReadStep;
use redis_fs::errors::FsError;
use redis_fs::fs::{EntryKind, RedisFS, FILE_MODE, MAX_SIZE, PARENT_MODE, TTL_SECS};
use redis_fs::state::{FlushCommand, ROOT_ID};

#[test]
fn init_reports_the_store_value_ceiling() {
    let fs = RedisFS::new();
    assert_eq!(fs.init(), 512 * 1024);
    assert_eq!(fs.init() as u64, MAX_SIZE);
}

#[test]
fn lookup_under_a_non_root_parent_is_not_found() {
    let mut fs = RedisFS::new();
    match fs.lookup(7, "a") {
        Err(e) => assert_eq!(e, FsError::NotFound),
        Ok(_) => panic!("only the root has children"),
    }
}

#[test]
fn lookup_allocates_and_reports_fixed_file_metadata() {
    let mut fs = RedisFS::new();
    let rep = fs.lookup(ROOT_ID, "a").unwrap();
    assert_eq!(rep.ttl_secs, TTL_SECS);
    assert_eq!(rep.generation, 0);
    assert_eq!(rep.attr.ino, 5);
    assert_eq!(rep.attr.size, MAX_SIZE);
    assert_eq!(rep.attr.kind, EntryKind::RegularFile);
    assert_eq!(rep.attr.perm, FILE_MODE);
    // looking up a name the store does not hold still succeeds: the miss is
    // deferred to the first read
    let rep2 = fs.lookup(ROOT_ID, "no-such-key").unwrap();
    assert_eq!(rep2.attr.ino, 6);
}

#[test]
fn getattr_distinguishes_root_from_files() {
    let fs = RedisFS::new();
    let root = fs.getattr(ROOT_ID);
    assert_eq!(root.attr.ino, ROOT_ID);
    assert_eq!(root.attr.kind, EntryKind::Directory);
    assert_eq!(root.attr.size, 0);
    assert_eq!(root.attr.blocks, 1);
    assert_eq!(root.attr.perm, PARENT_MODE);
    let file = fs.getattr(42);
    assert_eq!(file.attr.ino, 42);
    assert_eq!(file.attr.kind, EntryKind::RegularFile);
    // the reported size is a fixed ceiling, not the true value length
    assert_eq!(file.attr.size, MAX_SIZE);
}

#[test]
fn open_echoes_the_identifier_as_handle() {
    let fs = RedisFS::new();
    let r = fs.open(9, 0o101);
    assert_eq!(r.fh, 9);
    assert_eq!(r.flags, 0o101);
}

#[test]
fn access_knows_the_root_and_every_live_file_id() {
    let mut fs = RedisFS::new();
    assert!(fs.access(ROOT_ID).is_ok());
    match fs.access(5) {
        Err(e) => assert_eq!(e, FsError::NotFound),
        Ok(_) => panic!("an identifier nobody allocated must be unknown"),
    }
    let id = fs.lookup(ROOT_ID, "a").unwrap().attr.ino;
    assert!(fs.access(id).is_ok());
    match fs.access(99) {
        Err(e) => assert_eq!(e, FsError::NotFound),
        Ok(_) => panic!("an identifier nobody allocated must be unknown"),
    }
}

#[test]
fn write_reports_all_bytes_accepted() {
    let mut fs = RedisFS::new();
    let rep = fs.lookup(ROOT_ID, "k").unwrap();
    let n = fs.write(rep.attr.ino, 0, b"hello").unwrap();
    assert_eq!(n, 5);
}

#[test]
fn flush_tolerates_a_missing_buffer_at_the_protocol_boundary() {
    let mut fs = RedisFS::new();
    assert!(fs.flush(99).is_none());
}

#[test]
fn flush_hands_back_the_commit_command_once() {
    let mut fs = RedisFS::new();
    let rep = fs.lookup(ROOT_ID, "k").unwrap();
    fs.write(rep.attr.ino, 0, b"hi").unwrap();
    match fs.flush(rep.attr.ino) {
        Some(FlushCommand::Overwrite { key, value }) => {
            assert_eq!(key, "k");
            assert_eq!(value, b"hi".to_vec());
        }
        _ => panic!("the pending buffer must be committed as one SET"),
    }
    assert!(fs.flush(rep.attr.ino).is_none());
}

#[test]
fn readdir_on_a_non_root_parent_is_not_found() {
    let mut fs = RedisFS::new();
    match fs.readdir(9, vec!["a".to_string()], 0) {
        Err(e) => assert_eq!(e, FsError::NotFound),
        Ok(_) => panic!("only the root can be enumerated"),
    }
}

#[test]
fn readdir_lists_dot_dotdot_then_every_key() {
    // store contains {"a": "hello", "b": "world"}
    let mut fs = RedisFS::new();
    let es = fs
        .readdir(ROOT_ID, vec!["a".to_string(), "b".to_string()], 0)
        .unwrap();
    assert_eq!(es.len(), 4);
    assert_eq!(es[0].name, ".");
    assert_eq!(es[0].inode, ROOT_ID);
    assert_eq!(es[0].kind, EntryKind::Directory);
    assert_eq!(es[0].offset, 1);
    assert_eq!(es[1].name, "..");
    assert_eq!(es[1].inode, ROOT_ID);
    assert_eq!(es[1].offset, 2);
    assert_eq!(es[2].name, "a");
    assert_eq!(es[2].inode, 5);
    assert_eq!(es[2].kind, EntryKind::RegularFile);
    assert_eq!(es[2].offset, 3);
    assert_eq!(es[3].name, "b");
    assert_eq!(es[3].inode, 6);
    assert_eq!(es[3].offset, 4);
}

#[test]
fn readdir_skips_already_delivered_entries() {
    let mut fs = RedisFS::new();
    let es = fs
        .readdir(ROOT_ID, vec!["a".to_string(), "b".to_string()], 2)
        .unwrap();
    assert_eq!(es.len(), 2);
    assert_eq!(es[0].name, "a");
    assert_eq!(es[1].name, "b");
    let rest = fs.readdir(ROOT_ID, vec!["a".to_string()], 9).unwrap();
    assert!(rest.is_empty());
}

#[test]
fn readdir_lists_every_newly_inserted_key_with_a_distinct_id() {
    let mut fs = RedisFS::new();
    let keys: Vec<String> = (0..10).map(|i| format!("key{}", i)).collect();
    let es = fs.readdir(ROOT_ID, keys.clone(), 0).unwrap();
    assert_eq!(es.len(), 12);
    let mut seen = Vec::new();
    for (i, key) in keys.iter().enumerate() {
        let e = &es[i + 2];
        assert_eq!(&e.name, key);
        assert!(!seen.contains(&e.inode));
        seen.push(e.inode);
    }
}

#[test]
fn readdirplus_lists_dot_dotdot_then_keys_with_attributes() {
    let mut fs = RedisFS::new();
    let es = fs
        .readdirplus(ROOT_ID, vec!["a".to_string(), "b".to_string()], 0)
        .unwrap();
    assert_eq!(es.len(), 4);
    assert_eq!(es[0].name, ".");
    assert_eq!(es[0].inode, ROOT_ID);
    assert_eq!(es[0].generation, 0);
    assert_eq!(es[0].kind, EntryKind::Directory);
    assert_eq!(es[0].attr.kind, EntryKind::Directory);
    assert_eq!(es[0].attr.blocks, 0);
    assert_eq!(es[0].offset, 1);
    assert_eq!(es[1].name, "..");
    assert_eq!(es[1].inode, ROOT_ID);
    assert_eq!(es[1].generation, 0);
    assert_eq!(es[1].kind, EntryKind::Directory);
    assert_eq!(es[1].attr.kind, EntryKind::Directory);
    assert_eq!(es[1].offset, 2);
    assert_eq!(es[2].name, "a");
    assert_eq!(es[2].inode, 5);
    assert_eq!(es[2].generation, 1);
    assert_eq!(es[2].kind, EntryKind::RegularFile);
    assert_eq!(es[2].attr.ino, 5);
    assert_eq!(es[2].attr.size, MAX_SIZE);
    assert_eq!(es[2].offset, 3);
    assert_eq!(es[3].name, "b");
    assert_eq!(es[3].inode, 6);
    assert_eq!(es[3].offset, 4);
    assert_eq!(es[3].entry_ttl_secs, TTL_SECS);
    assert_eq!(es[3].attr_ttl_secs, TTL_SECS);
}

#[test]
fn readdirplus_respects_the_request_offset() {
    let mut fs = RedisFS::new();
    let es = fs
        .readdirplus(ROOT_ID, vec!["a".to_string(), "b".to_string()], 2)
        .unwrap();
    assert_eq!(es.len(), 2);
    assert_eq!(es[0].name, "a");
    assert_eq!(es[1].name, "b");
}

#[test]
fn lookup_then_read_window_scenario() {
    // store contains {"a": "hello", "b": "world"}; lookup(root, "a") -> X;
    // read(X, 0, 5) -> "hello"; read(X, 2, 3) -> "llo"
    let mut fs = RedisFS::new();
    let x = fs.lookup(ROOT_ID, "a").unwrap().attr.ino;
    let key = match fs.read(x, 0, 5) {
        Ok(ReadStep::Fetch(k)) => k,
        _ => panic!("the first read must ask the store"),
    };
    assert_eq!(key, "a");
    let first = fs.read_fetched(x, 0, 5, Some(b"hello".to_vec())).unwrap();
    assert_eq!(first, b"hello".to_vec());
    match fs.read(x, 2, 3) {
        Ok(ReadStep::Data(w)) => assert_eq!(w, b"llo".to_vec()),
        _ => panic!("the second read must hit the cache"),
    }
}

#[test]
fn overwrite_round_trip_scenario() {
    // write(id, 0, B) then flush then a fresh lookup+read returns exactly B
    let mut fs = RedisFS::new();
    let id = fs.lookup(ROOT_ID, "k").unwrap().attr.ino;
    fs.write(id, 0, b"fresh bytes").unwrap();
    let committed = match fs.flush(id) {
        Some(FlushCommand::Overwrite { key, value }) => {
            assert_eq!(key, "k");
            value
        }
        _ => panic!("offset zero means a full overwrite"),
    };
    // the store now holds `committed` under "k"; a fresh lookup+read sees it
    let id2 = fs.lookup(ROOT_ID, "k").unwrap().attr.ino;
    assert_ne!(id, id2);
    let back = fs
        .read_fetched(id2, 0, committed.len() as u32, Some(committed.clone()))
        .unwrap();
    assert_eq!(back, b"fresh bytes".to_vec());
}

#[test]
fn append_round_trip_scenario() {
    // given stored value V, write(id, k, B) then flush yields V[0..k] + B
    let mut fs = RedisFS::new();
    let id = fs.lookup(ROOT_ID, "k").unwrap().attr.ino;
    fs.write(id, 3, b"XY").unwrap();
    let stored = b"hello".to_vec();
    match fs.flush(id) {
        Some(FlushCommand::Splice { key, offset, data }) => {
            assert_eq!(key, "k");
            assert_eq!(offset, 3);
            let new_value = redis_fs::driver::RedisDriver::splice_value(stored, offset, &data);
            assert_eq!(new_value, b"helXY".to_vec());
        }
        _ => panic!("a nonzero first offset means append-at"),
    }
}

#[test]
fn statfs_reports_a_fixed_nominal_capacity() {
    let fs = RedisFS::new();
    let r = fs.statfs();
    assert_eq!(r.blocks, 1000000);
    assert_eq!(r.bfree, 1000000);
    assert_eq!(r.bavail, 1000000);
    assert_eq!(r.files, 1000000);
    assert_eq!(r.ffree, 1000000);
    assert_eq!(r.bsize, 4096);
    assert_eq!(r.namelen, 255);
    assert_eq!(r.frsize, 4096);
    // the report does not depend on what the session has seen
    let r2 = RedisFS::new().statfs();
    assert_eq!(r, r2);
}
