use hft_event_bus::fast_channel::{FastChannel, MpscChannel, TrySendError};
use hft_event_bus::typed_bus::{Side, Trade};

fn create_test_trade() -> Trade {
    Trade {
        timestamp_ns: 1_700_000_000_000_000_000,
        instrument_id: 1,
        price: 100_000,
        quantity: 10,
        side: Side::Buy,
        trade_id: 1,
        exchange: 1,
        flags: 0,
    }
}

#[test]
fn test_fast_channel_send_recv() {
    let channel = FastChannel::<Trade>::bounded(100);
    let trade = create_test_trade();

    channel.send(trade).unwrap();
    let received = channel.recv().unwrap();

    assert_eq!(received.price, trade.price);
}

#[test]
fn test_fast_channel_try_send() {
    let channel = FastChannel::<Trade>::bounded(1);
    let trade = create_test_trade();

    channel.try_send(trade).unwrap();

    // Channel full
    let result = channel.try_send(trade);
    assert!(matches!(result, Err(TrySendError::Full(_))));
}

#[test]
fn test_fast_channel_empty() {
    let channel = FastChannel::<Trade>::bounded(100);
    assert!(channel.is_empty());

    channel.send(create_test_trade()).unwrap();
    assert!(!channel.is_empty());
    assert_eq!(channel.len(), 1);
}

#[test]
fn test_fast_channel_unbounded_never_full() {
    let channel = FastChannel::<Trade>::unbounded();
    for _ in 0..1000 {
        channel.try_send(create_test_trade()).unwrap();
    }
    assert_eq!(channel.len(), 1000);
}

#[test]
fn test_fast_channel_clone_shares_queue() {
    let channel = FastChannel::<Trade>::bounded(10);
    let other = channel.clone();
    channel.send(create_test_trade()).unwrap();
    let received = other.recv().unwrap();
    assert_eq!(received.trade_id, 1);
}

#[test]
fn test_mpsc_channel_roundtrip() {
    let channel = MpscChannel::<Trade>::new(10);
    let sender = channel.sender();
    sender.send(create_test_trade()).unwrap();
    let received = channel.receiver().recv().unwrap();
    assert_eq!(received.trade_id, 1);
}

#[test]
fn test_try_send_full_returns_message() {
    let channel = FastChannel::<Trade>::bounded(1);
    channel.try_send(create_test_trade()).unwrap();
    match channel.try_send(create_test_trade()) {
        Err(TrySendError::Full(t)) => assert_eq!(t.trade_id, 1),
        _ => panic!("expected the full channel to hand the trade back"),
    }
}

#[test]
fn test_send_after_receivers_gone() {
    let channel = FastChannel::<Trade>::bounded(2);
    let sender = channel.sender();
    drop(channel);
    let result = sender.send(create_test_trade());
    assert!(result.is_err());
}

#[test]
fn test_recv_after_senders_gone() {
    let channel = FastChannel::<Trade>::bounded(2);
    let receiver = channel.receiver();
    drop(channel);
    assert!(receiver.recv().is_err());
}
