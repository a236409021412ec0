use std::sync::mpsc::channel;

use scrolling_timer::clock::SimClock;
use scrolling_timer::compositor::RecordingCompositorProxy;
use scrolling_timer::deadline::compute_wait_ns;
use scrolling_timer::deadline::FIXED_GRACE_PERIOD;
use scrolling_timer::messages::ToScrollingTimerMsg;
use scrolling_timer::scrolling::ScrollingTimer;
use scrolling_timer::scrolling::ScrollingTimerProxy;

const GRACE: u64 = FIXED_GRACE_PERIOD;

fn new_timer(
    start_ns: u64,
    grace_period: u64,
) -> (
    ScrollingTimerProxy,
    ScrollingTimer<RecordingCompositorProxy, SimClock>,
) {
    let (sender, receiver) = channel();
    let proxy = ScrollingTimerProxy::new(sender);
    let timer = ScrollingTimer::new(
        RecordingCompositorProxy::new(),
        SimClock::new(start_ns),
        receiver,
        grace_period,
    );
    (proxy, timer)
}

fn run_to_termination(timer: &mut ScrollingTimer<RecordingCompositorProxy, SimClock>) {
    while !timer.run_step() {}
}

#[test]
fn grace_period_is_twelve_milliseconds() {
    assert_eq!(FIXED_GRACE_PERIOD, 12_000_000);
}

#[test]
fn wait_is_deadline_minus_now() {
    assert_eq!(compute_wait_ns(1_000_000_000, GRACE, 1_000_000_000), GRACE);
    assert_eq!(compute_wait_ns(1_000_000_000, GRACE, 1_005_000_000), 7_000_000);
    assert_eq!(compute_wait_ns(50, 100, 120), 30);
}

#[test]
fn wait_is_zero_once_deadline_has_passed() {
    assert_eq!(compute_wait_ns(1_000, GRACE, 1_000 + GRACE), 0);
    assert_eq!(compute_wait_ns(1_000, GRACE, 5_000_000_000), 0);
    assert_eq!(compute_wait_ns(0, 0, 0), 0);
}

#[test]
fn single_scroll_event_times_out_at_deadline() {
    let (mut proxy, mut timer) = new_timer(1_000_000_000, GRACE);
    proxy.scroll_event_processed(1_000_000_000);
    proxy.shutdown();
    run_to_termination(&mut timer);
    assert_eq!(timer.compositor_proxy.recorded, vec![1_000_000_000]);
    assert!(timer.clock.reading() >= 1_000_000_000 + GRACE);
    assert_eq!(timer.clock.reading(), 1_012_000_000);
}

#[test]
fn timeouts_come_once_per_event_in_arrival_order() {
    let (mut proxy, mut timer) = new_timer(0, GRACE);
    proxy.scroll_event_processed(5);
    proxy.scroll_event_processed(1);
    proxy.scroll_event_processed(9);
    proxy.scroll_event_processed(1);
    proxy.shutdown();
    run_to_termination(&mut timer);
    assert_eq!(timer.compositor_proxy.recorded, vec![5, 1, 9, 1]);
}

#[test]
fn expired_event_is_notified_without_added_delay() {
    let start: u64 = 7_000_000_000;
    let (mut proxy, mut timer) = new_timer(start, GRACE);
    proxy.scroll_event_processed(1_000);
    proxy.shutdown();
    run_to_termination(&mut timer);
    assert_eq!(timer.compositor_proxy.recorded, vec![1_000]);
    assert_eq!(timer.clock.reading(), start);
}

#[test]
fn shutdown_with_no_pending_messages_emits_nothing() {
    let (mut proxy, mut timer) = new_timer(0, GRACE);
    proxy.shutdown();
    assert!(timer.run_step());
    assert!(timer.compositor_proxy.recorded.is_empty());
    assert_eq!(timer.clock.reading(), 0);
}

#[test]
fn scroll_event_ahead_of_shutdown_is_still_processed() {
    let (mut proxy, mut timer) = new_timer(0, GRACE);
    proxy.scroll_event_processed(42);
    proxy.shutdown();
    run_to_termination(&mut timer);
    assert_eq!(timer.compositor_proxy.recorded, vec![42]);
}

#[test]
fn scroll_event_behind_shutdown_is_never_processed() {
    let (mut proxy, mut timer) = new_timer(0, GRACE);
    proxy.shutdown();
    proxy.scroll_event_processed(42);
    run_to_termination(&mut timer);
    assert!(timer.compositor_proxy.recorded.is_empty());
}

#[test]
fn shutdown_is_idempotent() {
    let (mut proxy, mut timer) = new_timer(0, GRACE);
    proxy.shutdown();
    proxy.shutdown();
    run_to_termination(&mut timer);
    assert!(timer.compositor_proxy.recorded.is_empty());
}

#[test]
fn calls_after_worker_terminated_are_silently_discarded() {
    let (mut proxy, mut timer) = new_timer(0, GRACE);
    proxy.shutdown();
    run_to_termination(&mut timer);
    drop(timer);
    proxy.scroll_event_processed(7);
    proxy.shutdown();
}

#[test]
fn worker_terminates_once_every_proxy_is_gone() {
    let (mut proxy, mut timer) = new_timer(0, GRACE);
    proxy.scroll_event_processed(3);
    drop(proxy);
    run_to_termination(&mut timer);
    assert_eq!(timer.compositor_proxy.recorded, vec![3]);
}

#[test]
fn rapid_events_accumulate_delay_without_coalescing() {
    let t1: u64 = 1_000;
    let t2: u64 = t1 + 8_000_000;
    let (mut proxy, mut timer) = new_timer(t1, GRACE);
    proxy.scroll_event_processed(t1);
    proxy.scroll_event_processed(t2);
    proxy.shutdown();

    assert!(!timer.run_step());
    let first_emission = timer.clock.reading();
    assert_eq!(first_emission, t1 + GRACE);

    assert!(!timer.run_step());
    let second_emission = timer.clock.reading();
    assert_eq!(second_emission, t2 + GRACE);

    assert_eq!(second_emission - first_emission, t2 - t1);
    assert!(second_emission - first_emission >= GRACE - (t2 - t1));
    assert!(timer.run_step());
    assert_eq!(timer.compositor_proxy.recorded, vec![t1, t2]);
}

#[test]
fn backlog_is_drained_in_order_up_to_the_first_exit() {
    let (_proxy, mut timer) = new_timer(0, GRACE);
    let backlog = vec![
        ToScrollingTimerMsg::ScrollEventProcessedMsg(10),
        ToScrollingTimerMsg::ScrollEventProcessedMsg(20),
        ToScrollingTimerMsg::ExitMsg,
        ToScrollingTimerMsg::ScrollEventProcessedMsg(30),
    ];
    timer.process_backlog(&backlog);
    assert_eq!(timer.compositor_proxy.recorded, vec![10, 20]);
}
