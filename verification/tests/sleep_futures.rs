use experiments::channel::open;
use experiments::sleep::{rt_channel, sleep, sleep_report, FutureHandles, SleepPoll, WaitResult};
use experiments::channel::Received;
use experiments::sleep2::{sleep_channel, timer_fired, SleepPoll2, SleepState};
use std::time::Duration;

#[test]
fn sleep_keeps_its_duration() {
    let s = sleep::<u32, u8>(Duration::from_millis(1500));
    assert_eq!(s.dur(), Duration::from_millis(1500));
    assert!(!s.is_done());
}

#[test]
fn unstarted_sleep_counts_as_elapsed() {
    let s = sleep::<u32, u8>(Duration::from_millis(10));
    assert!(s.is_elapsed(false));
    assert!(s.thread().is_none());
}

#[test]
fn sleep_report_decoding() {
    assert!(sleep_report(Received::Message(())) == SleepPoll::Ready);
    assert!(sleep_report(Received::Empty) == SleepPoll::Pending);
    assert!(sleep_report(Received::Disconnected) == SleepPoll::Pending);
}

#[test]
fn sleep_poll_cycle() {
    let mut s = sleep::<u32, u8>(Duration::from_millis(10));
    assert!(s.poll_step() == SleepPoll::Start);
    let (mut notify, output) = open::<()>();
    let (cancelable_sender, mut cancelable_waiter) = rt_channel::<u32>();
    s.start(FutureHandles { thread: 42u8, output, cancelable_sender });
    assert_eq!(s.thread(), Some(&42u8));
    assert!(!s.is_elapsed(false));
    assert!(s.is_elapsed(true));
    assert!(s.poll_step() == SleepPoll::Pending);
    assert!(notify.send(()));
    assert!(s.poll_step() == SleepPoll::Ready);
    assert!(s.is_done());
    assert!(s.is_elapsed(false));
    let (thread, _sender) = s.shut_down().expect("started");
    assert_eq!(thread, 42u8);
    assert!(matches!(cancelable_waiter.wait_output(), WaitResult::Canceled));
    assert!(s.shut_down().is_none());
}

#[test]
fn sleep_dropped_while_waiting_cancels_helper() {
    let mut s = sleep::<u32, u8>(Duration::from_secs(30));
    let (_notify, output) = open::<()>();
    let (cancelable_sender, mut cancelable_waiter) = rt_channel::<u32>();
    s.start(FutureHandles { thread: 1u8, output, cancelable_sender });
    let (thread, sender) = s.shut_down().expect("started");
    assert_eq!(thread, 1u8);
    drop(sender);
    assert!(matches!(cancelable_waiter.wait_for(Duration::from_secs(30)), WaitResult::Canceled));
}

#[test]
fn timer_decoding() {
    assert!(timer_fired(Received::Timeout));
    assert!(!timer_fired(Received::Disconnected));
}

#[test]
fn cancel_waiter_times_out_when_not_canceled() {
    let (canceler, mut waiter) = sleep_channel(Duration::from_millis(20));
    assert!(waiter.wait());
    drop(canceler);
}

#[test]
fn cancel_waiter_stops_when_canceled() {
    let (canceler, mut waiter) = sleep_channel(Duration::from_secs(30));
    drop(canceler);
    assert!(!waiter.wait());
}

fn started() -> SleepState<u32, u8> {
    let (canceler, _waiter) = sleep_channel(Duration::from_secs(1));
    SleepState::start(canceler, 10u32, 20u8)
}

#[test]
fn shared_state_poll_cycle() {
    let mut s: SleepState<u32, u8> = SleepState::init();
    assert!(!s.is_elapsed());
    assert!(matches!(s.poll_step(1), SleepPoll2::Start(1)));
    assert!(matches!(s, SleepState::Init));
    s = started();
    assert!(matches!(s.poll_step(11), SleepPoll2::Pending));
    match &s {
        SleepState::Start(h) => assert_eq!(h.waker, Some(11)),
        _ => panic!("not started"),
    }
    assert_eq!(s.elapsed(), Some(11));
    assert!(s.is_elapsed());
    assert!(matches!(s.poll_step(12), SleepPoll2::Ready));
    assert_eq!(s.elapsed(), None);
    assert_eq!(s.cancel(), Some(20));
    assert!(s.is_elapsed());
    assert_eq!(s.cancel(), None);
}

#[test]
fn canceled_sleep_never_wakes() {
    let mut s = started();
    assert_eq!(s.cancel(), Some(20));
    assert!(matches!(s, SleepState::Canceled));
    assert_eq!(s.elapsed(), None);
    assert!(matches!(s, SleepState::Canceled));
    assert_eq!(s.cancel(), None);
}

#[test]
fn cancel_before_first_poll_changes_nothing() {
    let mut s: SleepState<u32, u8> = SleepState::init();
    assert_eq!(s.cancel(), None);
    assert!(matches!(s, SleepState::Init));
    assert_eq!(s.elapsed(), None);
    assert!(matches!(s, SleepState::Init));
}
