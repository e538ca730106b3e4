use redis_fs::driver::{ReadStep, RedisDriver};
use redis_fs::errors::FsError;
use redis_fs::state::FlushCommand;

#[test]
fn open_key_allocates_sequential_ids() {
    let mut d = RedisDriver::new();
    let a = d.open_key("a");
    let b = d.open_key("b");
    assert_eq!(a, 5);
    assert_eq!(b, 6);
}

#[test]
fn read_unknown_id_is_not_found() {
    let d = RedisDriver::new();
    match d.read(99, 0, 10) {
        Err(e) => assert_eq!(e, FsError::NotFound),
        Ok(_) => panic!("read of an unknown identifier must fail"),
    }
}

#[test]
fn first_read_fetches_then_caches() {
    let mut d = RedisDriver::new();
    let id = d.open_key("a");
    match d.read(id, 0, 5) {
        Ok(ReadStep::Fetch(k)) => assert_eq!(k, "a"),
        _ => panic!("an unloaded identifier must ask for its key"),
    }
    let got = d.read_fetched(id, 0, 5, Some(b"hello".to_vec())).unwrap();
    assert_eq!(got, b"hello".to_vec());
    // now the value is cached: no further fetch, windows are served directly
    match d.read(id, 2, 3) {
        Ok(ReadStep::Data(w)) => assert_eq!(w, b"llo".to_vec()),
        _ => panic!("a loaded identifier must serve from its cache"),
    }
    match d.read(id, 0, 2) {
        Ok(ReadStep::Data(w)) => assert_eq!(w, b"he".to_vec()),
        _ => panic!("a loaded identifier must serve from its cache"),
    }
}

#[test]
fn read_of_absent_key_is_not_found() {
    let mut d = RedisDriver::new();
    let id = d.open_key("missing");
    match d.read_fetched(id, 0, 4, None) {
        Err(e) => assert_eq!(e, FsError::NotFound),
        Ok(_) => panic!("an absent key must fail the first read"),
    }
}

#[test]
fn read_at_end_returns_zero_bytes() {
    let mut d = RedisDriver::new();
    let id = d.open_key("a");
    d.read_fetched(id, 0, 16, Some(b"hello".to_vec())).unwrap();
    match d.read(id, 5, 4) {
        Ok(ReadStep::Data(w)) => assert_eq!(w, Vec::<u8>::new()),
        _ => panic!("a read at the value's end must return zero bytes"),
    }
}

#[test]
fn read_past_end_is_not_found() {
    let mut d = RedisDriver::new();
    let id = d.open_key("a");
    d.read_fetched(id, 0, 16, Some(b"hello".to_vec())).unwrap();
    match d.read(id, 6, 1) {
        Err(e) => assert_eq!(e, FsError::NotFound),
        Ok(_) => panic!("a read past the value's end must fail"),
    }
    // the same holds when the offset check races the first fetch
    let mut d2 = RedisDriver::new();
    let id2 = d2.open_key("b");
    match d2.read_fetched(id2, 6, 1, Some(b"hello".to_vec())) {
        Err(e) => assert_eq!(e, FsError::NotFound),
        Ok(_) => panic!("a fetch completed past the value's end must fail"),
    }
}

#[test]
fn overwrite_write_then_flush_commits_exactly_the_bytes() {
    let mut d = RedisDriver::new();
    let id = d.open_key("k");
    assert_eq!(d.write(id, 0, b"abc").unwrap(), 3);
    match d.flush_write_buffer(id).unwrap() {
        FlushCommand::Overwrite { key, value } => {
            assert_eq!(key, "k");
            assert_eq!(value, b"abc".to_vec());
        }
        FlushCommand::Splice { .. } => panic!("a first write at offset zero means overwrite"),
    }
}

#[test]
fn second_flush_without_write_fails() {
    let mut d = RedisDriver::new();
    let id = d.open_key("k");
    d.write(id, 0, b"abc").unwrap();
    assert!(d.flush_write_buffer(id).is_ok());
    match d.flush_write_buffer(id) {
        Err(e) => assert_eq!(e, FsError::NotFound),
        Ok(_) => panic!("a drained buffer must not be committed twice"),
    }
}

#[test]
fn nonzero_first_offset_means_append_at() {
    let mut d = RedisDriver::new();
    let id = d.open_key("k");
    d.write(id, 2, b"XY").unwrap();
    match d.flush_write_buffer(id).unwrap() {
        FlushCommand::Splice { key, offset, data } => {
            assert_eq!(key, "k");
            assert_eq!(offset, 2);
            assert_eq!(data, b"XY".to_vec());
        }
        FlushCommand::Overwrite { .. } => panic!("a nonzero first offset means append-at"),
    }
}

#[test]
fn splice_value_truncates_and_appends() {
    // the committed value is V[0..k] + B for 0 < k <= len(V)
    let r = RedisDriver::splice_value(b"hello".to_vec(), 2, &b"XY".to_vec());
    assert_eq!(r, b"heXY".to_vec());
    let r2 = RedisDriver::splice_value(b"hello".to_vec(), 5, &b"!".to_vec());
    assert_eq!(r2, b"hello!".to_vec());
    // an offset beyond the stored value keeps the whole value
    let r3 = RedisDriver::splice_value(b"ab".to_vec(), 5, &b"Z".to_vec());
    assert_eq!(r3, b"abZ".to_vec());
    // an absent stored value reads as empty
    let r4 = RedisDriver::splice_value(Vec::new(), 3, &b"Z".to_vec());
    assert_eq!(r4, b"Z".to_vec());
}

#[test]
fn writes_accumulate_in_call_order_whatever_their_offsets() {
    let mut d = RedisDriver::new();
    let id = d.open_key("k");
    d.write(id, 0, b"ab").unwrap();
    d.write(id, 7, b"cd").unwrap();
    d.write(id, 1, b"e").unwrap();
    match d.flush_write_buffer(id).unwrap() {
        FlushCommand::Overwrite { key, value } => {
            assert_eq!(key, "k");
            assert_eq!(value, b"abcde".to_vec());
        }
        FlushCommand::Splice { .. } => panic!("the mode was fixed by the first write"),
    }
}

#[test]
fn write_on_unknown_id_is_not_found() {
    let mut d = RedisDriver::new();
    match d.write(99, 0, b"x") {
        Err(e) => assert_eq!(e, FsError::NotFound),
        Ok(_) => panic!("a write on an unknown identifier must fail"),
    }
}

#[test]
fn close_discards_state_and_hands_back_the_pending_buffer() {
    let mut d = RedisDriver::new();
    let id = d.open_key("k");
    d.write(id, 0, b"abc").unwrap();
    match d.close(id) {
        Some(FlushCommand::Overwrite { key, value }) => {
            assert_eq!(key, "k");
            assert_eq!(value, b"abc".to_vec());
        }
        _ => panic!("close must drain the pending buffer"),
    }
    match d.read(id, 0, 1) {
        Err(e) => assert_eq!(e, FsError::NotFound),
        Ok(_) => panic!("a closed identifier must be unknown"),
    }
    // close is idempotent and never fails
    assert!(d.close(id).is_none());
}

#[test]
fn identifiers_are_never_reused_after_close() {
    let mut d = RedisDriver::new();
    let a = d.open_key("k");
    assert!(d.close(a).is_none());
    let b = d.open_key("k");
    assert_ne!(a, b);
}

#[test]
fn all_keys_registers_each_key_under_a_distinct_fresh_id() {
    let mut d = RedisDriver::new();
    let keys = vec!["a".to_string(), "b".to_string(), "c".to_string()];
    let pairs = d.all_keys(keys);
    assert_eq!(pairs.len(), 3);
    assert_eq!(pairs[0], (5, "a".to_string()));
    assert_eq!(pairs[1], (6, "b".to_string()));
    assert_eq!(pairs[2], (7, "c".to_string()));
    // a key listed again gets a fresh identifier: no deduplication by name
    let again = d.all_keys(vec!["a".to_string()]);
    assert_eq!(again, vec![(8, "a".to_string())]);
    // every listed key is readable through its new identifier
    match d.read(8, 0, 1) {
        Ok(ReadStep::Fetch(k)) => assert_eq!(k, "a"),
        _ => panic!("an enumerated identifier starts unloaded"),
    }
}

#[test]
fn can_allocate_reports_counter_room() {
    let d = RedisDriver::new();
    assert!(d.can_allocate(1));
    assert!(d.can_allocate(u64::MAX - 5));
    assert!(!d.can_allocate(u64::MAX - 4));
}

#[test]
fn two_identifiers_keep_their_own_snapshots() {
    // two opens of the same key hold independent caches: if a writer commits
    // between their loads, each still observes its own self-consistent value
    let mut d = RedisDriver::new();
    let id1 = d.open_key("k");
    let id2 = d.open_key("k");
    d.read_fetched(id1, 0, 8, Some(b"old".to_vec())).unwrap();
    d.read_fetched(id2, 0, 8, Some(b"newer".to_vec())).unwrap();
    match d.read(id1, 0, 8) {
        Ok(ReadStep::Data(w)) => assert_eq!(w, b"old".to_vec()),
        _ => panic!("the first snapshot must be intact"),
    }
    match d.read(id2, 0, 8) {
        Ok(ReadStep::Data(w)) => assert_eq!(w, b"newer".to_vec()),
        _ => panic!("the second snapshot must be intact"),
    }
}
