use serial_tool::serial::{self, BridgeError, LinkState, ReadOutcome, Serial, WriteOutcome};

/// Runs the pump's write side once against a device that takes every byte.
fn pump_write(bridge: &mut Serial, log: &mut Vec<Vec<u8>>) -> bool {
    match bridge.next_write() {
        Some(m) => {
            let n = m.len();
            log.push(m);
            bridge.on_write(WriteOutcome::Written(n));
            true
        }
        None => false,
    }
}

#[test]
fn writes_reach_device_in_order() {
    let mut bridge = serial::new(8);
    let mut log = Vec::new();
    assert_eq!(bridge.send(b"A".to_vec()), Ok(()));
    assert_eq!(bridge.send(b"B".to_vec()), Ok(()));
    while pump_write(&mut bridge, &mut log) {}
    assert_eq!(log, vec![b"A".to_vec(), b"B".to_vec()]);
}

#[test]
fn close_stops_sends_and_writes() {
    let mut bridge = serial::new(8);
    let mut log = Vec::new();
    assert_eq!(bridge.send(b"queued".to_vec()), Ok(()));
    bridge.close();
    assert!(!bridge.is_running());
    assert_eq!(bridge.state(), LinkState::Closed);
    assert_eq!(bridge.send(b"late".to_vec()), Err(BridgeError::Closed));
    assert!(!pump_write(&mut bridge, &mut log));
    assert!(log.is_empty());
}

#[test]
fn full_queue_reports_busy() {
    let mut bridge = serial::new(1);
    assert_eq!(bridge.send(vec![1]), Ok(()));
    assert_eq!(bridge.send(vec![2]), Err(BridgeError::Busy));
    assert_eq!(bridge.outbound_len(), 1);
}

#[test]
fn reads_are_delivered_in_order() {
    let mut bridge = serial::new(4);
    assert!(bridge.on_read(ReadOutcome::Data(vec![1, 2])).is_none());
    assert!(bridge.on_read(ReadOutcome::WouldBlock).is_none());
    assert!(bridge.on_read(ReadOutcome::Data(vec![3])).is_none());
    assert_eq!(bridge.receive(), Ok(Some(vec![1, 2])));
    assert_eq!(bridge.receive(), Ok(Some(vec![3])));
    assert_eq!(bridge.receive(), Ok(None));
}

#[test]
fn full_inbound_hands_data_back() {
    let mut bridge = serial::new(1);
    assert!(bridge.deliver(vec![1]));
    assert_eq!(bridge.on_read(ReadOutcome::Data(vec![2])), Some(vec![2]));
    assert!(!bridge.deliver(vec![3]));
}

#[test]
fn short_write_loses_link() {
    let mut bridge = serial::new(4);
    assert_eq!(bridge.send(b"abc".to_vec()), Ok(()));
    assert_eq!(bridge.next_write(), Some(b"abc".to_vec()));
    bridge.on_write(WriteOutcome::Written(2));
    assert_eq!(bridge.state(), LinkState::Lost);
    assert_eq!(bridge.next_write(), None);
    assert_eq!(bridge.send(b"x".to_vec()), Err(BridgeError::LinkLost));
}

#[test]
fn would_block_keeps_message() {
    let mut bridge = serial::new(4);
    assert_eq!(bridge.send(b"abc".to_vec()), Ok(()));
    bridge.on_write(WriteOutcome::WouldBlock);
    assert_eq!(bridge.next_write(), Some(b"abc".to_vec()));
    bridge.on_write(WriteOutcome::Written(3));
    assert_eq!(bridge.next_write(), None);
    assert_eq!(bridge.state(), LinkState::Open);
}

#[test]
fn read_failure_surfaces_after_drain() {
    let mut bridge = serial::new(4);
    assert!(bridge.on_read(ReadOutcome::Data(vec![7])).is_none());
    assert!(bridge.on_read(ReadOutcome::Failed).is_none());
    assert_eq!(bridge.receive(), Ok(Some(vec![7])));
    assert_eq!(bridge.receive(), Err(BridgeError::LinkLost));
}

#[test]
fn write_failure_loses_link() {
    let mut bridge = serial::new(4);
    assert_eq!(bridge.send(vec![1]), Ok(()));
    bridge.on_write(WriteOutcome::Failed);
    assert_eq!(bridge.state(), LinkState::Lost);
    assert_eq!(bridge.outbound_len(), 0);
}

#[test]
fn fail_drops_pending_writes() {
    let mut bridge = serial::new(4);
    assert_eq!(bridge.send(vec![1]), Ok(()));
    bridge.fail();
    assert_eq!(bridge.outbound_len(), 0);
    assert_eq!(bridge.receive(), Err(BridgeError::LinkLost));
}

#[test]
fn closed_bridge_stays_closed_after_device_error() {
    let mut bridge = serial::new(4);
    bridge.close();
    assert!(bridge.on_read(ReadOutcome::Failed).is_none());
    bridge.fail();
    assert_eq!(bridge.state(), LinkState::Closed);
    assert_eq!(bridge.send(vec![1]), Err(BridgeError::Closed));
    assert_eq!(bridge.receive(), Ok(None));
}

#[test]
fn close_after_lost_link_reports_closed() {
    let mut bridge = serial::new(4);
    bridge.on_write(WriteOutcome::Failed);
    assert!(bridge.on_read(ReadOutcome::Failed).is_none());
    assert_eq!(bridge.state(), LinkState::Lost);
    bridge.close();
    assert_eq!(bridge.state(), LinkState::Closed);
    assert_eq!(bridge.send(vec![1]), Err(BridgeError::Closed));
}
