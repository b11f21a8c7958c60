use samwise_audio::{
    AudioPacket, DeviceSeen, DirectionState, PacketQueue, RetryDecision, RetryPolicy,
    SequenceCounter, StreamAction, FLUSH_THRESHOLD, MAX_ATTEMPTS, POLL_INTERVAL_MS,
    RETRY_BACKOFF_MS,
};

fn run(outcomes: &[bool]) -> (bool, u64) {
    let mut policy = RetryPolicy::new();
    let mut slept = 0;
    for &ok in outcomes {
        match policy.record(ok) {
            RetryDecision::Succeeded => return (true, slept),
            RetryDecision::RetryAfter { millis } => slept += millis,
            RetryDecision::GiveUp => return (false, slept),
        }
    }
    (false, slept)
}

#[test]
fn two_failures_then_success_sleeps_two_seconds() {
    assert_eq!(run(&[false, false, true]), (true, 2000));
}

#[test]
fn first_success_sleeps_not_at_all() {
    assert_eq!(run(&[true]), (true, 0));
}

#[test]
fn three_failures_give_up() {
    assert_eq!(MAX_ATTEMPTS, 3);
    assert_eq!(RETRY_BACKOFF_MS, 1000);
    assert_eq!(run(&[false, false, false, true]), (false, 2000));
    let mut p = RetryPolicy::new();
    assert_eq!(p.record(false), RetryDecision::RetryAfter { millis: 1000 });
    assert_eq!(p.record(false), RetryDecision::RetryAfter { millis: 1000 });
    assert_eq!(p.record(false), RetryDecision::GiveUp);
    assert_eq!(p.failures, 3);
}

#[test]
fn sequence_numbers_count_up_from_zero() {
    let mut c = SequenceCounter::new();
    assert_eq!(c.take(), 0);
    assert_eq!(c.take(), 1);
    assert_eq!(c.next, 2);
}

#[test]
fn queue_is_emptied_by_a_flush() {
    let mut q: PacketQueue<f32> = PacketQueue::new();
    q.push(AudioPacket::new(0, 0, vec![0.5]));
    q.push(AudioPacket::new(1, 10, vec![0.25]));
    assert_eq!(q.len(), 2);
    let taken = q.take_all();
    assert_eq!(taken.len(), 2);
    assert_eq!(taken[1].sequence_number, 1);
    assert_eq!(q.len(), 0);
}

#[test]
fn queue_over_threshold_needs_a_flush() {
    let mut d: DirectionState<f32> = DirectionState::new(DeviceSeen::Named("mic".to_string()));
    for i in 0..FLUSH_THRESHOLD as u64 {
        d.queue.push(AudioPacket::new(i, i, vec![]));
    }
    assert!(!d.needs_flush());
    d.queue.push(AudioPacket::new(6000, 6000, vec![]));
    assert!(d.needs_flush());
    let taken = d.take_for_flush();
    assert_eq!(taken.len(), 6001);
    assert_eq!(d.queue.len(), 0);
    assert!(d.alive);
}

#[test]
fn dead_stream_is_recovered_and_keeps_its_queue() {
    assert_eq!(POLL_INTERVAL_MS, 2000);
    let mut d: DirectionState<f32> = DirectionState::new(DeviceSeen::Named("mic".to_string()));
    d.queue.push(AudioPacket::new(0, 0, vec![0.5, 0.5]));
    d.queue.push(AudioPacket::new(1, 21, vec![0.25]));
    d.mark_dead();
    let current = DeviceSeen::Named("mic".to_string());
    assert_eq!(d.plan(&current), StreamAction::Recover);
    d.apply_rebuild(Some(DeviceSeen::Named("headset".to_string())));
    assert!(d.alive);
    assert_eq!(d.queue.len(), 2);
    assert_eq!(d.queue.packets[0].data, vec![0.5, 0.5]);
    assert_eq!(d.queue.packets[1].sequence_number, 1);
    assert!(matches!(&d.last_device, DeviceSeen::Named(n) if n == "headset"));
}

#[test]
fn failed_recovery_leaves_stream_dead() {
    let mut d: DirectionState<f32> = DirectionState::new(DeviceSeen::Absent);
    d.mark_dead();
    d.apply_rebuild(None);
    assert!(!d.alive);
    assert_eq!(d.plan(&DeviceSeen::Absent), StreamAction::Recover);
}

#[test]
fn default_device_change_switches_a_live_stream() {
    let d: DirectionState<f32> = DirectionState::new(DeviceSeen::Named("speakers".to_string()));
    assert_eq!(d.plan(&DeviceSeen::Named("speakers".to_string())), StreamAction::Keep);
    assert_eq!(d.plan(&DeviceSeen::Named("hdmi".to_string())), StreamAction::Switch);
    assert_eq!(d.plan(&DeviceSeen::Absent), StreamAction::Keep);
    assert_eq!(d.plan(&DeviceSeen::Unnamed), StreamAction::Keep);
    let fresh: DirectionState<f32> = DirectionState::new(DeviceSeen::Absent);
    assert_eq!(fresh.plan(&DeviceSeen::Unnamed), StreamAction::Switch);
    assert_eq!(fresh.plan(&DeviceSeen::Absent), StreamAction::Keep);
}
