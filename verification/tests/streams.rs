use hex_motor::cia402::events::{Cia402Event, Delivery, EventStreamItem, DEFAULT_EVENTS_CAPACITY};
use hex_motor::cia402::motor_entry::{MotorEntry, MotorEntryInner};
use hex_motor::cia402::subscribe::{
    after_count, after_sample, AfterCount, Offer, OverflowPolicy, StatusStreamItem, StreamOptions,
    Subscriber, DEFAULT_STREAM_CAPACITY,
};
use hex_motor::cia402::types::{
    Connection, LiveState, Logic, Measurements, MotorLifecycle, ReinitReason,
};
use hex_motor::number::Real32;
use hex_motor::time::{Duration, Instant};
use hex_motor::types::MotorMode;

fn at(ms: u64) -> Instant {
    Instant { nanos: Duration::from_millis(ms).nanos }
}

fn sample(seq: u8) -> LiveState {
    LiveState {
        connection: Connection { online: true, ..Default::default() },
        logic: Some(Logic::Enabled(MotorMode::ProfileVelocity)),
        measurements: Measurements {
            status_word: Some(0x0237),
            position_rev: Some(Real32::from_bits((seq as f32 * 0.01).to_bits())),
            ..Default::default()
        },
        timestamp: at(seq as u64),
    }
}

fn options(capacity: usize) -> StreamOptions {
    StreamOptions { capacity, on_overflow: OverflowPolicy::Lagged }
}

#[test]
fn options_default_uses_lagged_policy() {
    let o = StreamOptions::default();
    assert_eq!(o.on_overflow, OverflowPolicy::Lagged);
    assert_eq!(o.capacity, DEFAULT_STREAM_CAPACITY);
}

#[test]
fn push_delivers_samples_in_order() {
    let (mut sub, mut stream) = Subscriber::new(&options(4));
    for i in 0..4 {
        assert!(sub.push(&sample(i)));
    }
    for i in 0..4 {
        match stream.try_recv().unwrap() {
            StatusStreamItem::Sample(s) => {
                let pos = f32::from_bits(s.measurements.position_rev.unwrap().bits);
                assert!((pos - i as f32 * 0.01).abs() < 1e-6);
            }
            StatusStreamItem::Lagged { .. } => panic!("unexpected lagged"),
        }
    }
    assert!(stream.try_recv().is_none());
}

#[test]
fn push_overflow_emits_lagged_with_dropped_count() {
    let (mut sub, mut stream) = Subscriber::new(&options(2));
    assert!(sub.push(&sample(0)));
    assert!(sub.push(&sample(1)));
    assert!(sub.push(&sample(2)));
    assert!(sub.push(&sample(3)));

    let first = stream.try_recv().unwrap();
    assert!(matches!(first, StatusStreamItem::Sample(_)));

    assert!(sub.push(&sample(4)));

    let second = stream.try_recv().unwrap();
    assert!(matches!(second, StatusStreamItem::Sample(_)));
    match stream.try_recv().unwrap() {
        StatusStreamItem::Lagged { dropped } => assert_eq!(dropped, 2),
        _ => panic!("expected Lagged"),
    }
}

#[test]
fn push_returns_false_when_subscriber_dropped() {
    let (mut sub, stream) = Subscriber::new(&options(4));
    drop(stream);
    assert!(!sub.push(&sample(0)));
}

#[test]
fn every_sample_is_delivered_or_counted() {
    let (mut sub, mut stream) = Subscriber::new(&options(3));
    let mut delivered = 0u64;
    let mut counted = 0u64;
    for i in 0..200u64 {
        assert!(sub.push(&sample(i as u8)));
        if i % 3 == 0 {
            match stream.try_recv() {
                Some(StatusStreamItem::Sample(_)) => delivered += 1,
                Some(StatusStreamItem::Lagged { dropped }) => counted += dropped,
                None => {}
            }
        }
    }
    while let Some(item) = stream.try_recv() {
        match item {
            StatusStreamItem::Sample(_) => delivered += 1,
            StatusStreamItem::Lagged { dropped } => counted += dropped,
        }
    }
    assert!(sub.push(&sample(0)));
    while let Some(item) = stream.try_recv() {
        match item {
            StatusStreamItem::Sample(_) => delivered += 1,
            StatusStreamItem::Lagged { dropped } => counted += dropped,
        }
    }
    assert_eq!(delivered + counted, 201);
    assert!(counted > 0);
}

#[test]
fn capacity_zero_counts_as_one() {
    let (mut sub, mut stream) = Subscriber::new(&options(0));
    assert!(sub.push(&sample(1)));
    assert!(sub.push(&sample(2)));
    assert_eq!(stream.try_recv(), Some(StatusStreamItem::Sample(sample(1))));
    assert_eq!(stream.try_recv(), None);
}

#[test]
fn outcomes_of_an_offer() {
    assert_eq!(after_count(3, Offer::Taken), (0, AfterCount::OfferSample));
    assert_eq!(after_count(3, Offer::Full), (4, AfterCount::Keep));
    assert_eq!(after_count(u64::MAX, Offer::Full), (u64::MAX, AfterCount::Keep));
    assert_eq!(after_count(3, Offer::Closed), (3, AfterCount::Remove));
    assert_eq!(after_sample(0, Offer::Taken), (0, true));
    assert_eq!(after_sample(0, Offer::Full), (1, true));
    assert_eq!(after_sample(0, Offer::Closed), (0, false));
}

#[test]
fn new_starts_unknown_offline() {
    let e = MotorEntry::new(0x10, at(0));
    let g = &e.inner;
    assert_eq!(g.lifecycle, MotorLifecycle::Unknown);
    assert!(!g.online);
    assert!(g.identity.is_none());
    assert!(g.last_heartbeat.is_none());
    assert!(g.last_tpdo.is_none());
}

#[test]
fn new_snapshot_is_empty() {
    let e = MotorEntry::new(0x10, at(0));
    let s = e.snapshot;
    assert!(!s.connection.online);
    assert!(s.logic.is_none());
    assert_eq!(s.measurements, Measurements::default());
}

#[test]
fn last_seen_picks_max() {
    let now = at(1000);
    let mut inner = MotorEntryInner::new();
    assert_eq!(inner.last_seen(), None);

    inner.last_heartbeat = Some(now);
    assert_eq!(inner.last_seen(), Some(now));

    let later = at(1010);
    inner.last_tpdo = Some(later);
    assert_eq!(inner.last_seen(), Some(later));

    let earlier = at(980);
    inner.last_heartbeat = Some(earlier);
    assert_eq!(inner.last_seen(), Some(later));
}

#[test]
fn publish_updates_snapshot_and_drops_closed_subscribers() {
    let mut e = MotorEntry::new(0x10, at(0));

    let (sub, stream) = Subscriber::new(&StreamOptions::default());
    e.add_subscriber(sub);
    assert_eq!(e.subscribers.len(), 1);

    let now = at(1);
    e.inner.online = true;
    e.inner.last_heartbeat = Some(now);
    let state = e.inner.build_live_state(now);
    e.publish(state);

    assert!(e.snapshot.connection.online);

    drop(stream);
    let state2 = e.inner.build_live_state(at(2));
    e.publish(state2);
    assert_eq!(e.subscribers.len(), 0);
}

#[test]
fn publish_reaches_every_subscriber_that_stays() {
    let mut e = MotorEntry::new(0x10, at(0));
    let (a, mut stream_a) = Subscriber::new(&options(2));
    let (b, stream_b) = Subscriber::new(&options(2));
    let (c, mut stream_c) = Subscriber::new(&options(2));
    e.add_subscriber(a);
    e.add_subscriber(b);
    e.add_subscriber(c);
    drop(stream_b);
    e.publish(sample(7));
    assert_eq!(e.subscribers.len(), 2);
    assert_eq!(stream_a.try_recv(), Some(StatusStreamItem::Sample(sample(7))));
    assert_eq!(stream_c.try_recv(), Some(StatusStreamItem::Sample(sample(7))));
}

#[test]
fn deliveries_become_items() {
    assert_eq!(DEFAULT_EVENTS_CAPACITY, 256);
    assert!(EventStreamItem::from_delivery(Delivery::Closed).is_none());
    assert!(matches!(
        EventStreamItem::from_delivery(Delivery::Overrun(9)),
        Some(EventStreamItem::Lagged { dropped: 9 })
    ));
    let event = Cia402Event::NeedsReinit { nid: 4, reason: ReinitReason::LeftOperational };
    assert!(matches!(
        EventStreamItem::from_delivery(Delivery::Event(event.clone())),
        Some(EventStreamItem::Event(Cia402Event::NeedsReinit { nid: 4, .. }))
    ));
}

#[test]
fn live_state_of_nothing_is_empty() {
    let s = LiveState::empty(at(5));
    assert_eq!(s.connection, Connection::default());
    assert_eq!(s.logic, None);
    assert_eq!(s.measurements, Measurements::default());
    assert_eq!(s.timestamp, at(5));
}

#[test]
fn a_stream_delivers_what_was_taken() {
    let (mut sub, mut stream) = Subscriber::new(&options(2));
    assert_eq!(stream.try_recv(), None);
    assert!(sub.push(&sample(1)));
    assert!(sub.push(&sample(2)));
    assert!(sub.push(&sample(3)));
    assert_eq!(stream.try_recv(), Some(StatusStreamItem::Sample(sample(1))));
    assert_eq!(stream.try_recv(), Some(StatusStreamItem::Sample(sample(2))));
    assert_eq!(stream.try_recv(), None);
    assert!(sub.push(&sample(4)));
    assert_eq!(stream.try_recv(), Some(StatusStreamItem::Lagged { dropped: 1 }));
    assert_eq!(stream.try_recv(), Some(StatusStreamItem::Sample(sample(4))));
    assert_eq!(stream.try_recv(), None);
}

#[test]
fn a_stream_that_is_gone_stays_gone() {
    let (mut sub, stream) = Subscriber::new(&options(1));
    assert!(sub.push(&sample(1)));
    assert!(sub.push(&sample(2)));
    drop(stream);
    assert!(!sub.push(&sample(3)));
    assert!(!sub.push(&sample(4)));
}

#[test]
fn a_lagging_subscriber_is_told_once_it_catches_up() {
    let (mut sub, mut stream) = Subscriber::new(&options(2));
    for i in 0..5 {
        assert!(sub.push(&sample(i)));
    }
    assert_eq!(stream.try_recv(), Some(StatusStreamItem::Sample(sample(0))));
    assert_eq!(stream.try_recv(), Some(StatusStreamItem::Sample(sample(1))));
    assert_eq!(stream.try_recv(), None);
    assert!(sub.push(&sample(5)));
    assert_eq!(stream.try_recv(), Some(StatusStreamItem::Lagged { dropped: 3 }));
    assert_eq!(stream.try_recv(), Some(StatusStreamItem::Sample(sample(5))));
    assert_eq!(stream.try_recv(), None);
}

#[test]
fn one_free_place_goes_to_the_count() {
    let (mut sub, mut stream) = Subscriber::new(&options(2));
    for i in 0..4 {
        assert!(sub.push(&sample(i)));
    }
    assert_eq!(stream.try_recv(), Some(StatusStreamItem::Sample(sample(0))));
    assert!(sub.push(&sample(4)));
    assert_eq!(stream.try_recv(), Some(StatusStreamItem::Sample(sample(1))));
    assert_eq!(stream.try_recv(), Some(StatusStreamItem::Lagged { dropped: 2 }));
    assert_eq!(stream.try_recv(), None);
    assert!(sub.push(&sample(5)));
    assert_eq!(stream.try_recv(), Some(StatusStreamItem::Lagged { dropped: 1 }));
    assert_eq!(stream.try_recv(), Some(StatusStreamItem::Sample(sample(5))));
}
