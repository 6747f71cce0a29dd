use fleet_midi_pulse::pulse::TickPosition;
use fleet_midi_pulse::subscriber::SubscriberManager;
use fleet_midi_pulse::PulseError;
use std::sync::mpsc::RecvTimeoutError;

fn event(tick: u64, beat: u32, bar: u64, tick_in_beat: u32) -> TickPosition {
    TickPosition { tick, beat, bar, tick_in_beat, ticks_per_beat: 24 }
}

fn zero() -> TickPosition {
    event(0, 0, 0, 0)
}

#[test]
fn subscribe_and_receive() {
    let mut mgr = SubscriberManager::new();
    let rx = mgr.subscribe();
    assert_eq!(mgr.subscriber_count(), 1);

    let event = zero();
    mgr.broadcast(event);

    let received = rx.recv().unwrap();
    assert_eq!(received, event);
}

#[test]
fn subscriber_multiple_subscribers() {
    let mut mgr = SubscriberManager::new();
    let rx1 = mgr.subscribe();
    let rx2 = mgr.subscribe();
    assert_eq!(mgr.subscriber_count(), 2);

    // tick 42, beat 1, phase 0.5
    let event = event(42, 1, 0, 12);
    let sent = mgr.broadcast(event);
    assert_eq!(sent, 2);

    assert_eq!(rx1.recv().unwrap(), event);
    assert_eq!(rx2.recv().unwrap(), event);
}

#[test]
fn disconnected_subscriber_removed() {
    let mut mgr = SubscriberManager::new();
    let rx = mgr.subscribe();
    drop(rx);

    let sent = mgr.broadcast(zero());
    assert_eq!(sent, 0);
    assert_eq!(mgr.subscriber_count(), 0);
}

#[test]
fn broadcast_returns_sent_count() {
    let mut mgr = SubscriberManager::new();
    let _rx1 = mgr.subscribe();
    let _rx2 = mgr.subscribe();
    let _rx3 = mgr.subscribe();

    let sent = mgr.broadcast(zero());
    assert_eq!(sent, 3);
}

#[test]
fn clear_removes_all() {
    let mut mgr = SubscriberManager::<TickPosition>::new();
    mgr.subscribe();
    mgr.subscribe();
    mgr.clear();
    assert_eq!(mgr.subscriber_count(), 0);
}

#[test]
fn try_recv_empty() {
    let mut mgr = SubscriberManager::<TickPosition>::new();
    let rx = mgr.subscribe();
    assert!(rx.try_recv().is_err());
}

#[test]
fn recv_timeout_expires() {
    let mut mgr = SubscriberManager::<TickPosition>::new();
    let rx = mgr.subscribe();
    let result = rx.recv_timeout(std::time::Duration::from_millis(1));
    assert!(matches!(result, Err(RecvTimeoutError::Timeout)));
}

#[test]
fn subscriber_default_is_new() {
    let mgr = SubscriberManager::<TickPosition>::default();
    assert_eq!(mgr.subscriber_count(), 0);
}

// ── Further cases ──

#[test]
fn only_disconnected_subscribers_are_dropped() {
    let mut mgr = SubscriberManager::new();
    let rx1 = mgr.subscribe();
    let rx2 = mgr.subscribe();
    let rx3 = mgr.subscribe();
    drop(rx2);
    assert_eq!(mgr.broadcast(event(5, 0, 0, 5)), 2);
    assert_eq!(mgr.subscriber_count(), 2);
    assert_eq!(mgr.broadcast(event(6, 0, 0, 6)), 2);
    assert_eq!(rx1.try_recv().unwrap().tick, 5);
    assert_eq!(rx1.try_recv().unwrap().tick, 6);
    assert_eq!(rx3.try_recv().unwrap().tick, 5);
    assert_eq!(rx3.try_recv().unwrap().tick, 6);
}

#[test]
fn recv_after_manager_dropped_reports_closed_channel() {
    let mut mgr = SubscriberManager::<TickPosition>::new();
    let rx = mgr.subscribe();
    drop(mgr);
    assert!(matches!(rx.recv(), Err(PulseError::ChannelClosed)));
}
