use std::time::Instant;

use hft_event_bus::bus::EventBus;
use hft_event_bus::events::{EventEnvelope, EventPayload, MarketDataEvent};
use hft_event_bus::replay_mode::{EventReplay, EventReplayBuilder, ReplaySpeed, VirtualClock};
use hft_event_bus::subscriber::Subscriber;

fn make_envelope(ts_ns: i64, price: i64) -> EventEnvelope {
    EventEnvelope::new(
        0,
        ts_ns,
        EventPayload::MarketData(MarketDataEvent {
            timestamp: ts_ns,
            symbol: "ES".to_string(),
            price,
            volume: 1_000,
            bid_price: price - 125,
            bid_size: 10_000,
            ask_price: price + 125,
            ask_size: 10_000,
        }),
        5,
    )
}

#[test]
fn test_replay_speed_parse() {
    assert!(matches!(ReplaySpeed::from_str("max"), ReplaySpeed::Max));
    assert!(matches!(
        ReplaySpeed::from_str("realtime"),
        ReplaySpeed::Realtime
    ));
    match ReplaySpeed::from_str("10x") {
        ReplaySpeed::Multiplier(m) => assert_eq!(m, 10_000),
        _ => panic!("Expected Multiplier"),
    }
    match ReplaySpeed::from_str("2.5x") {
        ReplaySpeed::Multiplier(m) => assert_eq!(m, 2_500),
        _ => panic!("Expected Multiplier"),
    }
}

#[test]
fn test_replay_speed_parse_edges() {
    assert!(matches!(ReplaySpeed::from_str("MAX"), ReplaySpeed::Max));
    assert!(matches!(ReplaySpeed::from_str("1x"), ReplaySpeed::Realtime));
    assert!(matches!(ReplaySpeed::from_str(""), ReplaySpeed::Max));
    assert!(matches!(ReplaySpeed::from_str("x"), ReplaySpeed::Max));
    assert!(matches!(ReplaySpeed::from_str("fast"), ReplaySpeed::Max));
    assert!(matches!(ReplaySpeed::from_str("1.2.3x"), ReplaySpeed::Max));
    match ReplaySpeed::from_str("0.5x") {
        ReplaySpeed::Multiplier(m) => assert_eq!(m, 500),
        _ => panic!("Expected Multiplier"),
    }
    match ReplaySpeed::from_str(".5x") {
        ReplaySpeed::Multiplier(m) => assert_eq!(m, 500),
        _ => panic!("Expected Multiplier"),
    }
    match ReplaySpeed::from_str("3.x") {
        ReplaySpeed::Multiplier(m) => assert_eq!(m, 3_000),
        _ => panic!("Expected Multiplier"),
    }
    // Below one thousandth of real time: not representable, falls back.
    assert!(matches!(ReplaySpeed::from_str("0.0001x"), ReplaySpeed::Max));
}

#[test]
fn test_replay_speed_parse_signed_and_exponent() {
    match ReplaySpeed::from_str("+2x") {
        ReplaySpeed::Multiplier(m) => assert_eq!(m, 2_000),
        _ => panic!("Expected Multiplier"),
    }
    match ReplaySpeed::from_str("1e3x") {
        ReplaySpeed::Multiplier(m) => assert_eq!(m, 1_000_000),
        _ => panic!("Expected Multiplier"),
    }
    match ReplaySpeed::from_str("2.5E2x") {
        ReplaySpeed::Multiplier(m) => assert_eq!(m, 250_000),
        _ => panic!("Expected Multiplier"),
    }
    match ReplaySpeed::from_str("2e-1x") {
        ReplaySpeed::Multiplier(m) => assert_eq!(m, 200),
        _ => panic!("Expected Multiplier"),
    }
    match ReplaySpeed::from_str("2e+1x") {
        ReplaySpeed::Multiplier(m) => assert_eq!(m, 20_000),
        _ => panic!("Expected Multiplier"),
    }
    // The exponent shifts the dot before anything is truncated.
    match ReplaySpeed::from_str("0.000005e6x") {
        ReplaySpeed::Multiplier(m) => assert_eq!(m, 5_000),
        _ => panic!("Expected Multiplier"),
    }
    // A negative multiplier has no fixed-point rendering.
    assert!(matches!(ReplaySpeed::from_str("-2x"), ReplaySpeed::Max));
    // Beyond the fixed-point range.
    assert!(matches!(ReplaySpeed::from_str("1e20x"), ReplaySpeed::Max));
    // Malformed exponents.
    assert!(matches!(ReplaySpeed::from_str("2ex"), ReplaySpeed::Max));
    assert!(matches!(ReplaySpeed::from_str("e3x"), ReplaySpeed::Max));
    assert!(matches!(ReplaySpeed::from_str("2e+x"), ReplaySpeed::Max));
}

#[test]
fn test_virtual_clock() {
    let mut clock = VirtualClock::new();
    clock.set_bounds(1_000_000_000, 2_000_000_000);
    assert_eq!(clock.current(), 1_000_000_000);
    assert_eq!(clock.progress_permille(), 0);

    clock.advance_to(1_500_000_000);
    assert_eq!(clock.progress_permille(), 500);

    clock.advance_to(2_000_000_000);
    assert_eq!(clock.progress_permille(), 1000);
}

#[test]
fn test_virtual_clock_empty_span() {
    let clock = VirtualClock::new();
    assert_eq!(clock.progress_permille(), 1000);
}

#[test]
fn test_replay_max_speed() {
    let mut bus = EventBus::new();
    let mut rx = Subscriber::new(bus.subscribe_market_data());

    let events: Vec<EventEnvelope> = (0..100)
        .map(|i: i64| make_envelope(i * 1_000_000, 6_000_000 + i * 1_000))
        .collect();

    let mut replay = EventReplay::new(bus, ReplaySpeed::Max);
    replay.load_events(events);

    assert_eq!(replay.event_count(), 100);

    let start = Instant::now();
    let stats = replay.run();

    assert_eq!(stats.events_replayed, 100);
    assert!(start.elapsed().as_millis() < 1000); // Should be very fast
    assert!(stats.wall_time_ns < 1_000_000_000);
    assert!(stats.events_per_second > 100);

    let mut seen: usize = 0;
    while rx.try_recv().is_some() {
        seen += 1;
    }
    assert_eq!(seen, 100);
}

#[test]
fn test_replay_builder() {
    let mut bus = EventBus::new();
    let _rx = bus.subscribe_market_data();

    let events: Vec<EventEnvelope> = (0..10)
        .map(|i: i64| make_envelope(i * 1_000_000, 6_000_000))
        .collect();

    let mut replay = EventReplayBuilder::new(bus)
        .speed(ReplaySpeed::Max)
        .events(events)
        .build();

    let stats = replay.run();
    assert_eq!(stats.events_replayed, 10);
}

#[test]
fn test_replay_empty() {
    let bus = EventBus::new();
    let mut replay = EventReplay::new(bus, ReplaySpeed::Max);
    let stats = replay.run();
    assert_eq!(stats.events_replayed, 0);
}

#[test]
fn test_replay_preserves_order() {
    let mut bus = EventBus::new();
    let mut rx = Subscriber::new(bus.subscribe_market_data());

    // Events intentionally out of order — load_events should sort them
    let events = vec![
        make_envelope(3_000_000, 6_003_000),
        make_envelope(1_000_000, 6_001_000),
        make_envelope(2_000_000, 6_002_000),
    ];

    let mut replay = EventReplay::new(bus, ReplaySpeed::Max);
    replay.load_events(events);

    let stats = replay.run();
    assert_eq!(stats.events_replayed, 3);

    // Verify chronological order
    let e1 = rx.try_recv().unwrap();
    let e2 = rx.try_recv().unwrap();
    let e3 = rx.try_recv().unwrap();

    match (&e1.event, &e2.event, &e3.event) {
        (
            EventPayload::MarketData(m1),
            EventPayload::MarketData(m2),
            EventPayload::MarketData(m3),
        ) => {
            assert_eq!(m1.price, 6_001_000);
            assert_eq!(m2.price, 6_002_000);
            assert_eq!(m3.price, 6_003_000);
        }
        _ => panic!("Expected MarketData events"),
    }
}

#[test]
fn test_replay_multiplier_pacing() {
    // Two events 100 ms apart in virtual time, replayed at twice real time:
    // the honored wall delay approximates 50 ms.
    let bus = EventBus::new();
    let events = vec![
        make_envelope(0, 6_000_000),
        make_envelope(100_000_000, 6_001_000),
    ];
    let mut replay = EventReplay::new(bus, ReplaySpeed::Multiplier(2_000));
    replay.load_events(events);

    let start = Instant::now();
    let stats = replay.run();
    let elapsed = start.elapsed();

    assert_eq!(stats.events_replayed, 2);
    assert!(elapsed.as_millis() >= 45, "paced run finished too fast");
    assert!(elapsed.as_millis() < 2000, "paced run took far too long");
}

#[test]
fn test_replay_run_until() {
    let mut bus = EventBus::new();
    let mut rx = Subscriber::new(bus.subscribe_market_data());

    let events: Vec<EventEnvelope> = (0..6)
        .map(|i: i64| make_envelope(i * 1_000_000, 6_000_000 + i * 1_000))
        .collect();

    let mut replay = EventReplay::new(bus, ReplaySpeed::Max);
    replay.load_events(events);

    let stats = replay.run_until(2_000_000);
    assert_eq!(stats.events_replayed, 3);
    // The unplayed suffix stays loaded for a later call.
    assert_eq!(replay.event_count(), 6);

    let mut first_batch: usize = 0;
    while rx.try_recv().is_some() {
        first_batch += 1;
    }
    assert_eq!(first_batch, 3);
}

#[test]
fn test_replay_stats_span() {
    let bus = EventBus::new();
    let events = vec![make_envelope(5_000_000, 6_000_000), make_envelope(1_000_000, 6_000_000)];
    let mut replay = EventReplay::new(bus, ReplaySpeed::Max);
    replay.load_events(events);
    let stats = replay.run();
    assert_eq!(stats.virtual_time_span_ns, 4_000_000);
    assert_eq!(replay.clock().current(), 5_000_000);
}

#[test]
fn test_recording_then_replay_roundtrip() {
    // Traffic recorded off one bus is directly replayable through another.
    let mut recording_bus = EventBus::with_recording(16);
    bus_publish_three(&mut recording_bus);
    let recorded = recording_bus.recorder().unwrap().get_events();
    assert_eq!(recorded.len(), 3);

    let mut playback_bus = EventBus::new();
    let mut rx = Subscriber::new(playback_bus.subscribe_market_data());
    let mut replay = EventReplay::new(playback_bus, ReplaySpeed::Max);
    replay.load_events(recorded);
    let stats = replay.run();
    assert_eq!(stats.events_replayed, 3);
    let mut seen: usize = 0;
    while rx.try_recv().is_some() {
        seen += 1;
    }
    assert_eq!(seen, 3);
}

fn bus_publish_three(bus: &mut EventBus) {
    for i in 0..3i64 {
        bus.publish(EventPayload::MarketData(MarketDataEvent {
            timestamp: i,
            symbol: "ES".to_string(),
            price: 6_000_000 + i,
            volume: 1_000,
            bid_price: 5_999_500,
            bid_size: 5_000,
            ask_price: 6_000_500,
            ask_size: 5_000,
        }))
        .unwrap();
    }
}

#[test]
fn test_replay_stable_for_equal_timestamps() {
    // Equal-timestamp envelopes keep their relative input order.
    let mut bus = EventBus::new();
    let mut rx = Subscriber::new(bus.subscribe_market_data());

    let events = vec![
        make_envelope(2_000_000, 6_009_000),
        make_envelope(1_000_000, 6_001_000),
        make_envelope(1_000_000, 6_002_000),
        make_envelope(1_000_000, 6_003_000),
    ];
    let mut replay = EventReplay::new(bus, ReplaySpeed::Max);
    replay.load_events(events);
    replay.run();

    let mut prices = vec![];
    while let Some(env) = rx.try_recv() {
        match env.event {
            EventPayload::MarketData(m) => prices.push(m.price),
            _ => panic!("expected market data"),
        }
    }
    assert_eq!(prices, vec![6_001_000, 6_002_000, 6_003_000, 6_009_000]);
}

#[test]
fn test_replay_speed_parse_overflow() {
    // A multiplier beyond the fixed-point range falls back to maximum speed.
    assert!(matches!(
        ReplaySpeed::from_str("99999999999999999999999x"),
        ReplaySpeed::Max
    ));
}

#[test]
fn test_replay_step_by_step() {
    // The step API replays the sorted batch one event at a time, so an
    // outside driver can invoke callbacks between events.
    let mut bus = EventBus::new();
    let mut rx = Subscriber::new(bus.subscribe_market_data());

    let events = vec![
        make_envelope(2_000_000, 6_002_000),
        make_envelope(1_000_000, 6_001_000),
    ];
    let mut replay = EventReplay::new(bus, ReplaySpeed::Max);
    replay.load_events(events);

    assert!(replay.can_run());
    let total = replay.event_count();
    let mut seen_prices = vec![];
    for i in 0..total {
        assert_eq!(replay.next_delay_ns(i), 0); // max speed never waits
        let envelope = replay.publish_event(i);
        match &envelope.event {
            EventPayload::MarketData(m) => seen_prices.push(m.price),
            _ => panic!("expected market data"),
        }
    }
    assert_eq!(seen_prices, vec![6_001_000, 6_002_000]);
    assert_eq!(replay.clock().current(), 2_000_000);
    assert_eq!(replay.clock().start_ns(), 1_000_000);
    assert_eq!(replay.clock().end_ns(), 2_000_000);

    let mut delivered: usize = 0;
    while rx.try_recv().is_some() {
        delivered += 1;
    }
    assert_eq!(delivered, 2);
}

#[test]
fn test_progress_report_schedule() {
    // A progress report is due at every positive multiple of the interval.
    assert!(!EventReplay::should_report_progress(0, 10));
    assert!(!EventReplay::should_report_progress(5, 10));
    assert!(EventReplay::should_report_progress(10, 10));
    assert!(EventReplay::should_report_progress(20, 10));
}
