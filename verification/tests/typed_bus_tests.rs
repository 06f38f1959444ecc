use hft_event_bus::typed_bus::{Quote, Side, Trade, TypedEventBus};

fn create_test_trade(id: u64) -> Trade {
    Trade {
        timestamp_ns: id as i64,
        instrument_id: 1,
        price: 100_000,
        quantity: 10,
        side: Side::Buy,
        trade_id: id,
        exchange: 1,
        flags: 0,
    }
}

fn create_test_quote(id: u64) -> Quote {
    Quote {
        timestamp_ns: id as i64,
        instrument_id: 1,
        bid_price: 100_000,
        ask_price: 100_250,
        bid_size: 10,
        ask_size: 10,
        exchange: 1,
    }
}

#[test]
fn test_typed_bus_publish_subscribe() {
    let mut bus = TypedEventBus::new();

    // Subscribe
    let rx = bus.subscribe::<Trade>();

    // Publish
    let trade = create_test_trade(1);
    bus.publish(trade).unwrap();

    // Receive
    let received = rx.recv().unwrap();
    assert_eq!(received.trade_id, 1);
}

#[test]
fn test_typed_bus_multiple_types() {
    let mut bus = TypedEventBus::new();

    // Subscribe to both types
    let trade_rx = bus.subscribe::<Trade>();
    let quote_rx = bus.subscribe::<Quote>();

    // Publish both
    bus.publish(create_test_trade(1)).unwrap();
    bus.publish(create_test_quote(2)).unwrap();

    // Receive both
    let trade = trade_rx.recv().unwrap();
    let quote = quote_rx.recv().unwrap();

    assert_eq!(trade.trade_id, 1);
    assert_eq!(quote.timestamp_ns, 2);
}

#[test]
fn test_typed_bus_stats() {
    let mut bus = TypedEventBus::new();
    let _rx = bus.subscribe::<Trade>();

    bus.publish(create_test_trade(1)).unwrap();
    bus.publish(create_test_trade(2)).unwrap();

    let stats = bus.stats::<Trade>().unwrap();
    assert_eq!(stats.published, 2);
    assert_eq!(stats.subscribers, 1);
}

#[test]
fn test_typed_bus_clone() {
    let bus = TypedEventBus::new();
    let mut bus2 = bus.clone();

    let mut bus1 = bus;
    let rx = bus1.subscribe::<Trade>();

    // Publish from cloned bus
    bus2.publish(create_test_trade(1)).unwrap();

    // Receive from original
    let trade = rx.recv().unwrap();
    assert_eq!(trade.trade_id, 1);
}

#[test]
fn test_typed_bus_type_isolation() {
    // Publishing under one type is never delivered to a subscriber of
    // another type.
    let mut bus = TypedEventBus::new();
    let trade_rx = bus.subscribe::<Trade>();
    let quote_rx = bus.subscribe::<Quote>();

    bus.publish(create_test_trade(9)).unwrap();

    assert!(quote_rx.try_recv().is_err());
    let trade = trade_rx.recv().unwrap();
    assert_eq!(trade.trade_id, 9);

    let stats = bus.stats::<Trade>().unwrap();
    assert_eq!(stats.published, 1);
    let quote_stats = bus.stats::<Quote>().unwrap();
    assert_eq!(quote_stats.published, 0);
}

#[test]
fn test_typed_bus_competing_consumers() {
    // Two handles on the same type compete: each message goes to exactly
    // one of them.
    let mut bus = TypedEventBus::new();
    let rx1 = bus.subscribe::<Trade>();
    let rx2 = bus.subscribe::<Trade>();

    bus.publish(create_test_trade(1)).unwrap();
    bus.publish(create_test_trade(2)).unwrap();

    let mut seen = vec![];
    while let Ok(t) = rx1.try_recv() {
        seen.push(t.trade_id);
    }
    while let Ok(t) = rx2.try_recv() {
        seen.push(t.trade_id);
    }
    seen.sort();
    assert_eq!(seen, vec![1, 2]);
}

#[test]
fn test_typed_bus_total_published() {
    let mut bus = TypedEventBus::new();
    let _trade_rx = bus.subscribe::<Trade>();
    let _quote_rx = bus.subscribe::<Quote>();
    bus.publish(create_test_trade(1)).unwrap();
    bus.publish(create_test_trade(2)).unwrap();
    bus.publish(create_test_quote(3)).unwrap();
    assert_eq!(bus.total_published(), 3);
}

#[test]
fn test_typed_bus_stats_before_use() {
    let bus = TypedEventBus::new();
    assert!(bus.stats::<Trade>().is_none());
    assert!(bus.stats::<Quote>().is_none());
}

#[test]
fn test_typed_bus_clone_shares_stats() {
    // Clones read and feed one shared statistics registry: a publish on
    // either handle is visible in the counters of both.
    let bus = TypedEventBus::new();
    let mut bus2 = bus.clone();
    let mut bus1 = bus;

    let _rx = bus1.subscribe::<Trade>();
    bus2.publish(create_test_trade(1)).unwrap();

    let via_original = bus1.stats::<Trade>().unwrap();
    let via_clone = bus2.stats::<Trade>().unwrap();
    assert_eq!(via_original.published, 1);
    assert_eq!(via_clone.published, 1);
    assert_eq!(via_original.subscribers, 1);
    assert_eq!(via_clone.subscribers, 1);
    assert_eq!(bus1.total_published(), 1);
    assert_eq!(bus2.total_published(), 1);
}
