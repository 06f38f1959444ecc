use hft_event_bus::events::{EventEnvelope, EventPayload, MarketDataEvent};
use hft_event_bus::replay::EventRecorder;

fn market_envelope(id: u64, timestamp: i64, price: i64) -> EventEnvelope {
    EventEnvelope::new(
        id,
        timestamp,
        EventPayload::MarketData(MarketDataEvent {
            timestamp,
            symbol: "ES".to_string(),
            price,
            volume: 10_000,
            bid_price: 5_999_500,
            bid_size: 5_000,
            ask_price: 6_000_500,
            ask_size: 5_000,
        }),
        5,
    )
}

#[test]
fn test_record_and_retrieve() {
    let mut recorder = EventRecorder::new(100);

    let event = market_envelope(1, 1234567890, 6_000_000);
    recorder.record(event.clone());

    let events = recorder.get_events();
    assert_eq!(events.len(), 1);
    assert_eq!(events[0].id, event.id);
}

#[test]
fn test_circular_buffer() {
    let mut recorder = EventRecorder::new(2);

    for i in 0..5i64 {
        let event = market_envelope(i as u64, i, 6_000_000 + i * 1_000);
        recorder.record(event);
    }

    let events = recorder.get_events();
    assert_eq!(events.len(), 2); // Only keeps last 2
}

#[test]
fn test_ring_overwrites_oldest_slot() {
    let mut recorder = EventRecorder::new(3);
    for i in 0..4u64 {
        recorder.record(market_envelope(i, i as i64, 6_000_000));
    }
    // Slot order after one wraparound: the fourth record overwrote slot 0.
    let events = recorder.get_events();
    assert_eq!(events.len(), 3);
    assert_eq!(events[0].id, 3);
    assert_eq!(events[1].id, 1);
    assert_eq!(events[2].id, 2);
}

#[test]
fn test_get_events_in_range() {
    let mut recorder = EventRecorder::new(10);
    for i in 0..5i64 {
        recorder.record(market_envelope(i as u64, i * 100, 6_000_000));
    }
    let ranged = recorder.get_events_in_range(100, 300);
    assert_eq!(ranged.len(), 3);
    assert_eq!(ranged[0].timestamp_ns, 100);
    assert_eq!(ranged[2].timestamp_ns, 300);
}

#[test]
fn test_clear_resets_recorder() {
    let mut recorder = EventRecorder::new(4);
    assert!(recorder.is_empty());
    recorder.record(market_envelope(1, 10, 6_000_000));
    assert!(!recorder.is_empty());
    assert_eq!(recorder.len(), 1);
    recorder.clear();
    assert!(recorder.is_empty());
    assert_eq!(recorder.len(), 0);
    assert_eq!(recorder.get_events().len(), 0);
}
