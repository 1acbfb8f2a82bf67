use argus::chain_event::{Block, BlockHeader, BlockRef, ChainEvent, MappingError, RawBlock, TipEvent};
use argus::retry::Failure;
use argus::source::Stage;

fn raw(slot: u64, hash: &str) -> RawBlock {
    RawBlock {
        native: vec![],
        parsed: Some(Block { header: Some(BlockHeader { slot, hash: hash.as_bytes().to_vec() }), body: vec![] }),
    }
}

#[test]
fn execute_publishes_and_updates_gauges() {
    let mut s = Stage::new("http://node:50051".to_string());
    let m = s.execute(&TipEvent::Apply(raw(100, "H1"))).unwrap();
    assert_eq!(m.payload, ChainEvent::Apply(raw(100, "H1").parsed.unwrap()));
    assert_eq!((s.ops_count, s.current_slot, s.chain_tip), (1, 100, 100));
    let m = s.execute(&TipEvent::Undo(raw(100, "H1"))).unwrap();
    assert_eq!(m.payload, ChainEvent::Reset(BlockRef { index: 100, hash: b"H1".to_vec() }));
    let m = s.execute(&TipEvent::Reset(BlockRef { index: 50, hash: b"H0".to_vec() })).unwrap();
    assert_eq!(m.payload, ChainEvent::Reset(BlockRef { index: 50, hash: b"H0".to_vec() }));
    assert_eq!((s.ops_count, s.current_slot, s.chain_tip), (3, 50, 50));
}

#[test]
fn malformed_event_changes_nothing() {
    let mut s = Stage::new("node".to_string());
    let e = s.execute(&TipEvent::Apply(RawBlock { native: vec![], parsed: None })).unwrap_err();
    assert_eq!(e, MappingError::MissingParsedBlock);
    assert_eq!((s.ops_count, s.current_slot), (0, 0));
}

#[test]
fn lost_stream_restarts() {
    let s = Stage::new("node".to_string());
    assert_eq!(s.stream_failure(), Failure::Restart);
    assert_eq!(s.dolos_endpoint, "node");
}
