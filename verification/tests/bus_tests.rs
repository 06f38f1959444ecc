use hft_event_bus::bus::EventBus;
use hft_event_bus::events::{EventPayload, MarketDataEvent};
use hft_event_bus::events::{OrderEvent, OrderSide, OrderType};
use hft_event_bus::publisher::Publisher;
use hft_event_bus::subscriber::Subscriber;

fn market_data_event() -> EventPayload {
    EventPayload::MarketData(MarketDataEvent {
        timestamp: 1234567890,
        symbol: "ES".to_string(),
        price: 6_000_000,
        volume: 10_000,
        bid_price: 5_999_500,
        bid_size: 5_000,
        ask_price: 6_000_500,
        ask_size: 5_000,
    })
}

#[test]
fn test_publish_subscribe() {
    let mut bus = EventBus::new();

    // Subscribe before publishing
    let mut rx = Subscriber::new(bus.subscribe_market_data());

    // Publish event
    bus.publish(market_data_event()).unwrap();

    // Receive event
    let received = rx.try_recv().expect("expected an event");
    assert_eq!(received.priority, 5);
}

#[test]
fn test_multiple_subscribers() {
    let mut bus = EventBus::new();

    let mut rx1 = Subscriber::new(bus.subscribe_market_data());
    let mut rx2 = Subscriber::new(bus.subscribe_market_data());

    bus.publish(market_data_event()).unwrap();

    // Both should receive
    assert!(rx1.try_recv().is_some());
    assert!(rx2.try_recv().is_some());
}

#[test]
fn test_fanout_delivers_equal_copies() {
    let mut bus = EventBus::new();

    let mut rx1 = Subscriber::new(bus.subscribe_market_data());
    let mut rx2 = Subscriber::new(bus.subscribe_market_data());
    let mut rx3 = Subscriber::new(bus.subscribe_market_data());

    bus.publish(market_data_event()).unwrap();

    let e1 = rx1.try_recv().expect("first subscriber");
    let e2 = rx2.try_recv().expect("second subscriber");
    let e3 = rx3.try_recv().expect("third subscriber");
    for e in [&e1, &e2, &e3] {
        assert_eq!(e.id, 1);
        assert_eq!(e.priority, 5);
        match &e.event {
            EventPayload::MarketData(m) => {
                assert_eq!(m.symbol, "ES");
                assert_eq!(m.price, 6_000_000);
            }
            _ => panic!("expected market data"),
        }
    }
    // Exactly once each, absent lag.
    assert!(rx1.try_recv().is_none());
    assert!(rx2.try_recv().is_none());
    assert!(rx3.try_recv().is_none());
}

#[test]
fn test_publish_without_subscribers_counts_drop() {
    // Zero subscribers: publishing succeeds, and the type's counters read
    // one published, one dropped.
    let mut bus = EventBus::new();

    bus.publish(market_data_event()).unwrap();

    let stats = bus.get_stats();
    let entry = stats
        .iter()
        .find(|(k, _)| k == "MarketData")
        .expect("stats entry for the published type");
    assert_eq!(entry.1.published, 1);
    assert_eq!(entry.1.dropped, 1);
}

#[test]
fn test_drop_counter_grows_by_exactly_one() {
    let mut bus = EventBus::new();

    bus.publish(market_data_event()).unwrap();
    bus.publish(market_data_event()).unwrap();

    let stats = bus.get_stats();
    let entry = stats.iter().find(|(k, _)| k == "MarketData").unwrap();
    assert_eq!(entry.1.published, 2);
    assert_eq!(entry.1.dropped, 2);

    // With a live subscriber nothing further is dropped.
    let _rx = bus.subscribe_market_data();
    bus.publish(market_data_event()).unwrap();
    let stats = bus.get_stats();
    let entry = stats.iter().find(|(k, _)| k == "MarketData").unwrap();
    assert_eq!(entry.1.published, 3);
    assert_eq!(entry.1.dropped, 2);
}

#[test]
fn test_type_name_routing() {
    let mut bus = EventBus::new();

    let mut md_rx = Subscriber::new(bus.subscribe_market_data());
    let mut order_rx = Subscriber::new(bus.subscribe_orders());

    bus.publish(EventPayload::Order(OrderEvent {
        order_id: 7,
        signal_id: None,
        timestamp: 42,
        symbol: "ES".to_string(),
        side: OrderSide::Buy,
        order_type: OrderType::Market,
        quantity: 1_000,
        price: Some(6_000_000),
    }))
    .unwrap();

    // Only the order subscriber sees it.
    assert!(md_rx.try_recv().is_none());
    let received = order_rx.try_recv().expect("order event");
    assert!(matches!(received.event, EventPayload::Order(_)));
}

#[test]
fn test_subscriber_resubscribe() {
    let mut bus = EventBus::new();
    let rx = Subscriber::new(bus.subscribe_market_data());
    let mut rx2 = rx.resubscribe();
    bus.publish(market_data_event()).unwrap();
    assert!(rx2.try_recv().is_some());
}

#[test]
fn test_publisher_priorities() {
    let mut bus = EventBus::new();
    let rx = bus.subscribe_market_data();
    let mut sub = Subscriber::new(rx);
    let mut publisher = Publisher::new(bus);

    publisher.publish_high_priority(market_data_event()).unwrap();
    publisher.publish(market_data_event()).unwrap();
    publisher.publish_low_priority(market_data_event()).unwrap();

    assert_eq!(sub.try_recv().unwrap().priority, 0);
    assert_eq!(sub.try_recv().unwrap().priority, 5);
    assert_eq!(sub.try_recv().unwrap().priority, 9);
}

#[test]
fn test_recording_bus_mirrors_envelopes() {
    let mut bus = EventBus::with_recording(10);
    let _rx = bus.subscribe_market_data();
    bus.publish(market_data_event()).unwrap();
    bus.publish(market_data_event()).unwrap();
    let recorder = bus.recorder().expect("recording enabled");
    assert_eq!(recorder.len(), 2);
}
