use experiments::channel::{open, Received};
use experiments::sleep::{
    recv_result, report_elapsed, rt_channel, timeout_result, try_result, WaitResult,
};
use std::time::Duration;

fn is_output(r: &WaitResult<u32>, expected: u32) -> bool {
    matches!(r, WaitResult::Output(v) if *v == expected)
}

#[test]
fn sent_output_is_read_back() {
    let (mut sender, mut waiter) = rt_channel::<u32>();
    sender.send_output(7);
    assert!(is_output(&waiter.wait_output(), 7));
}

#[test]
fn sent_output_is_read_back_without_blocking() {
    let (mut sender, mut waiter) = rt_channel::<u32>();
    assert!(waiter.try_wait_output().is_none());
    sender.send_output(11);
    match waiter.try_wait_output() {
        Some(r) => assert!(is_output(&r, 11)),
        None => panic!("no output"),
    }
}

#[test]
fn sent_output_is_read_back_with_time_limit() {
    let (mut sender, mut waiter) = rt_channel::<u32>();
    sender.send_output(3);
    assert!(is_output(&waiter.wait_for(Duration::from_millis(100)), 3));
}

#[test]
fn cancel_is_read_back_as_canceled() {
    let (mut sender, mut waiter) = rt_channel::<u32>();
    sender.cancel();
    assert!(matches!(waiter.wait_for(Duration::from_secs(5)), WaitResult::Canceled));
}

#[test]
fn dead_sender_is_read_back_as_canceled() {
    let (sender, mut waiter) = rt_channel::<u32>();
    drop(sender);
    assert!(matches!(waiter.wait_output(), WaitResult::Canceled));
    let (sender, mut waiter) = rt_channel::<u32>();
    drop(sender);
    assert!(matches!(waiter.try_wait_output(), Some(WaitResult::Canceled)));
}

#[test]
fn silent_channel_runs_out_of_time() {
    let (sender, mut waiter) = rt_channel::<u32>();
    assert!(matches!(waiter.wait_for(Duration::from_millis(20)), WaitResult::Elapsed));
    drop(sender);
}

#[test]
fn duplicated_sender_reaches_the_same_waiter() {
    let (sender, mut waiter) = rt_channel::<u32>();
    let mut second = sender.clone();
    drop(sender);
    second.send_output(5);
    assert!(is_output(&waiter.wait_output(), 5));
}

#[test]
fn decoders_give_each_outcome() {
    assert!(is_output(&timeout_result(Received::Message(Ok(1u32))), 1));
    assert!(matches!(timeout_result(Received::<Result<u32, ()>>::Message(Err(()))), WaitResult::Canceled));
    assert!(matches!(timeout_result(Received::<Result<u32, ()>>::Timeout), WaitResult::Elapsed));
    assert!(matches!(timeout_result(Received::<Result<u32, ()>>::Disconnected), WaitResult::Canceled));
    assert!(is_output(&recv_result(Received::Message(Ok(2u32))), 2));
    assert!(matches!(recv_result(Received::<Result<u32, ()>>::Disconnected), WaitResult::Canceled));
    assert!(matches!(try_result(Received::<Result<u32, ()>>::Empty), None));
    assert!(matches!(try_result(Received::<Result<u32, ()>>::Disconnected), Some(WaitResult::Canceled)));
    match try_result(Received::Message(Ok(9u32))) {
        Some(r) => assert!(is_output(&r, 9)),
        None => panic!("no output"),
    }
}

#[test]
fn plain_channel_delivers_in_order() {
    let (mut outbox, mut inbox) = open::<u32>();
    assert!(matches!(inbox.try_recv(), Received::Empty));
    assert!(outbox.send(1));
    let mut copy = outbox.duplicate();
    assert!(copy.send(2));
    assert!(matches!(inbox.recv(), Received::Message(1)));
    assert!(matches!(inbox.recv_timeout(Duration::from_secs(1)), Received::Message(2)));
    assert!(matches!(inbox.recv_timeout(Duration::from_millis(10)), Received::Timeout));
    drop(outbox);
    drop(copy);
    assert!(matches!(inbox.recv(), Received::Disconnected));
}

#[test]
fn elapsed_wait_reports_and_canceled_wait_does_not() {
    let (mut notify, mut output) = open::<()>();
    assert!(report_elapsed(WaitResult::<u32>::Elapsed, &mut notify));
    assert!(matches!(output.try_recv(), Received::Message(())));
    assert!(!report_elapsed(WaitResult::<u32>::Canceled, &mut notify));
    assert!(matches!(output.try_recv(), Received::Empty));
    drop(output);
    assert!(!report_elapsed(WaitResult::<u32>::Elapsed, &mut notify));
}
