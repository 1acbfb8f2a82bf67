use argus::chain_event::{Block, BlockHeader, BlockRef, ChainEvent};
use argus::retry::Failure;
use argus::sink::{SinkError, Stage, Store};

fn apply(slot: u64, hash: &str) -> ChainEvent {
    ChainEvent::Apply(Block {
        header: Some(BlockHeader { slot, hash: hash.as_bytes().to_vec() }),
        body: vec![],
    })
}

fn reset(index: u64, hash: &str) -> ChainEvent {
    ChainEvent::Reset(BlockRef { index, hash: hash.as_bytes().to_vec() })
}

fn snapshot(s: &Store) -> (usize, Option<BlockRef>) {
    (s.len(), s.cursor())
}

#[test]
fn apply_increments_ops_count() {
    let mut s = Stage::new("mysql://db".to_string());
    assert_eq!(s.ops_count, 0);
    s.execute(&apply(100, "H1")).unwrap();
    assert_eq!(s.ops_count, 1);
    assert_eq!(s.latest_block, 100);
    assert_eq!(s.store.cursor(), Some(BlockRef { index: 100, hash: b"H1".to_vec() }));
}

#[test]
fn apply_twice_same_as_once() {
    let mut once = Store::new();
    once.apply_event(&apply(10, "A")).unwrap();
    let mut twice = Store::new();
    twice.apply_event(&apply(10, "A")).unwrap();
    twice.apply_event(&apply(10, "A")).unwrap();
    assert_eq!(snapshot(&once), snapshot(&twice));
    assert_eq!(twice.len(), 1);
}

#[test]
fn reset_twice_same_as_once() {
    let mut s = Store::new();
    for (i, h) in [(1, "A"), (2, "B"), (3, "C")] {
        s.apply_event(&apply(i, h)).unwrap();
    }
    s.apply_event(&reset(1, "A")).unwrap();
    let after_once = snapshot(&s);
    s.apply_event(&reset(1, "A")).unwrap();
    assert_eq!(after_once, snapshot(&s));
    assert_eq!(s.len(), 1);
    assert!(s.contains(&BlockRef { index: 1, hash: b"A".to_vec() }));
    assert!(!s.contains(&BlockRef { index: 2, hash: b"B".to_vec() }));
}

#[test]
fn reset_moves_cursor_and_gauge() {
    let mut s = Stage::new("db".to_string());
    s.execute(&apply(7, "A")).unwrap();
    s.execute(&apply(9, "B")).unwrap();
    s.execute(&reset(7, "A")).unwrap();
    assert_eq!(s.ops_count, 3);
    assert_eq!(s.latest_block, 7);
    assert_eq!(s.store.len(), 1);
}

#[test]
fn apply_without_header_is_rejected() {
    let mut s = Stage::new("db".to_string());
    let e = s.execute(&ChainEvent::Apply(Block { header: None, body: vec![] })).unwrap_err();
    assert_eq!(e, SinkError::MissingHeader);
    assert_eq!(e.failure(), Failure::Fatal);
    assert_eq!(s.ops_count, 0);
    assert_eq!(s.store.cursor(), None);
}

#[test]
fn bootstrap_failure_is_retried() {
    let s = Stage::new("db".to_string());
    assert_eq!(s.bootstrap_failure(), Failure::Retry);
    assert_eq!(s.database_url, "db");
}
