use grpc_simulation::bridge::{Pulled, SendOutcome, StreamBridge, BRIDGE_CAPACITY};

#[test]
fn new_bridge_is_empty_and_open() {
    let bridge: StreamBridge<u32> = StreamBridge::new();
    assert_eq!(BRIDGE_CAPACITY, 4);
    assert_eq!(bridge.capacity(), 4);
    assert_eq!(bridge.len(), 0);
    assert!(!bridge.is_closed());
    assert!(bridge.is_connected());
}

#[test]
fn items_come_out_in_the_order_they_went_in() {
    let mut bridge: StreamBridge<u32> = StreamBridge::new();
    assert_eq!(bridge.send(10), SendOutcome::Sent);
    assert_eq!(bridge.send(20), SendOutcome::Sent);
    assert_eq!(bridge.pull(), Pulled::Item(10));
    assert_eq!(bridge.send(30), SendOutcome::Sent);
    assert_eq!(bridge.pull(), Pulled::Item(20));
    assert_eq!(bridge.pull(), Pulled::Item(30));
    assert_eq!(bridge.pull(), Pulled::Pending);
}

#[test]
fn full_bridge_gives_the_item_back() {
    let mut bridge: StreamBridge<u32> = StreamBridge::new();
    for item in 0..4 {
        assert_eq!(bridge.send(item), SendOutcome::Sent);
    }
    assert_eq!(bridge.len(), 4);
    assert_eq!(bridge.send(4), SendOutcome::Full(4));
    assert_eq!(bridge.len(), 4);
    assert_eq!(bridge.pull(), Pulled::Item(0));
    assert_eq!(bridge.send(4), SendOutcome::Sent);
    assert_eq!(bridge.send(5), SendOutcome::Full(5));
}

#[test]
fn bridge_without_room_takes_nothing() {
    let mut bridge: StreamBridge<u32> = StreamBridge::with_capacity(0);
    assert_eq!(bridge.send(1), SendOutcome::Full(1));
    assert_eq!(bridge.pull(), Pulled::Pending);
}

#[test]
fn closing_is_idempotent_and_ends_the_sequence_after_what_waits() {
    let mut bridge: StreamBridge<u32> = StreamBridge::with_capacity(2);
    assert_eq!(bridge.send(1), SendOutcome::Sent);
    bridge.close();
    assert!(bridge.is_closed());
    bridge.close();
    assert!(bridge.is_closed());
    assert_eq!(bridge.len(), 1);
    assert_eq!(bridge.send(2), SendOutcome::Closed(2));
    assert_eq!(bridge.pull(), Pulled::Item(1));
    assert_eq!(bridge.pull(), Pulled::End);
    assert_eq!(bridge.pull(), Pulled::End);
}

#[test]
fn disconnected_bridge_signals_the_producer() {
    let mut bridge: StreamBridge<u32> = StreamBridge::new();
    assert_eq!(bridge.send(1), SendOutcome::Sent);
    bridge.disconnect();
    assert!(!bridge.is_connected());
    assert_eq!(bridge.len(), 0);
    assert_eq!(bridge.send(2), SendOutcome::Disconnected(2));
    assert_eq!(bridge.pull(), Pulled::End);
    bridge.close();
    assert_eq!(bridge.send(3), SendOutcome::Disconnected(3));
}
