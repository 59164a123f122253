use experiments::channel::{open, Received};
use experiments::runtime::{
    choose_poll_immediate, event_channel, first_poll, race_after_cancel, race_after_future,
    report_poll, task, Event, IdGen, RaceStep, Runtime, TaskPoll,
};
use experiments::sleep::{rt_channel, FutureHandles, WaitResult};

type Rt = Runtime<&'static str, u32>;

#[test]
fn ids_count_up_from_zero() {
    let mut g = IdGen::new();
    assert_eq!(g.next(), 0);
    assert_eq!(g.next(), 1);
    assert_eq!(g.next(), 2);
}

#[test]
fn new_tasks_get_fresh_ids() {
    let (mut rt, _events) = Rt::new();
    assert_eq!(rt.issued_ids(), 0);
    let (c0, t0) = rt.new_task::<u32, u8>("entry");
    let (c1, t1) = rt.new_task::<u32, u8>("second");
    assert_eq!((c0.id(), t0.id()), (0, 0));
    assert_eq!((c1.id(), t1.id()), (1, 1));
    assert_eq!(c1.waker.task_id, 1);
    assert_eq!(c1.future, "second");
    assert_eq!(rt.issued_ids(), 2);
}

#[test]
fn spawned_task_is_queued_and_filed() {
    let (mut rt, mut events) = Rt::new();
    let (ctx, _task) = rt.new_task::<u32, u8>("f");
    rt.push_task(ctx, true);
    assert_eq!(events.next_event(), Some((Event::Spawn, 0)));
    let taken = rt.take_for_event(0).expect("filed");
    assert_eq!(taken.id(), 0);
    assert!(rt.take_for_event(0).is_none());
}

#[test]
fn event_for_missing_task_is_skipped() {
    let (mut rt, _events) = Rt::new();
    assert!(rt.take_for_event(5).is_none());
}

#[test]
fn pending_task_is_filed_back_and_wake_is_requeued() {
    let (mut rt, mut events) = Rt::new();
    let (ctx, _task) = rt.new_task::<u32, u8>("f");
    rt.push_task(ctx, false);
    let ctx = rt.take_for_event(0).unwrap();
    assert_eq!(rt.after_poll(Event::Wake, ctx, None), None);
    assert_eq!(events.next_event(), Some((Event::Wake, 0)));
    let ctx = rt.take_for_event(0).unwrap();
    assert_eq!(rt.after_poll(Event::Spawn, ctx, None), None);
    assert!(rt.take_for_event(0).is_some());
}

#[test]
fn finished_entry_task_gives_the_result() {
    let (mut rt, _events) = Rt::new();
    let (mut ctx, _task) = rt.new_task::<u32, u8>("entry");
    assert_eq!(ctx.handle_entry(5), Some(5));
    assert_eq!(rt.after_poll(Event::Spawn, ctx, Some(9)), Some(9));
}

#[test]
fn finished_task_hands_output_to_its_handle() {
    let (mut rt, _events) = Rt::new();
    let (_entry, _entry_task) = rt.new_task::<u32, u8>("entry");
    let (ctx, mut t) = rt.new_task::<u32, u8>("child");
    assert!(t.is_finished(false));
    assert_eq!(rt.after_poll(Event::Spawn, ctx, Some(31)), None);
    assert!(rt.take_for_event(1).is_none());
    match t.poll_step() {
        TaskPoll::ReadyNow(v) => assert_eq!(v, 31),
        _ => panic!("output not found"),
    }
    assert!(t.is_done());
}

#[test]
fn immediate_poll_hands_output_or_files_task() {
    let (mut rt, mut events) = Rt::new();
    let (_entry, _entry_task) = rt.new_task::<u32, u8>("entry");
    let (ctx, mut t) = rt.new_task::<u32, u8>("child");
    rt.after_immediate_poll(ctx, Some(4));
    assert!(rt.take_for_event(1).is_none());
    assert!(matches!(t.poll_step(), TaskPoll::ReadyNow(4)));
    let (ctx, _t2) = rt.new_task::<u32, u8>("later");
    rt.after_immediate_poll(ctx, None);
    assert!(rt.take_for_event(2).is_some());
    drop(events);
}

#[test]
fn task_without_output_starts_helper_and_reads_report() {
    let (mut t, sender) = task::<u32, u32, u8>(3);
    assert_eq!(t.id(), 3);
    let (cancelable_sender, _waiter) = match t.poll_step() {
        TaskPoll::Start(s, w) => (s, w),
        _ => panic!("expected start"),
    };
    let (mut notify, output) = open::<u32>();
    t.start(FutureHandles { thread: 8u8, output, cancelable_sender });
    assert_eq!(t.thread(), Some(&8u8));
    assert!(!t.is_finished(false));
    assert!(matches!(t.poll_step(), TaskPoll::Pending));
    assert!(notify.send(77));
    assert!(matches!(t.poll_step(), TaskPoll::Ready(77)));
    assert!(t.is_finished(false));
    let handles = t.take_handles().expect("handles");
    assert_eq!(handles.close().0, 8u8);
    drop(sender);
}

#[test]
fn waker_queues_wake_of_its_task() {
    let (rt, mut events) = Rt::new();
    let mut w = rt.waker(4);
    w.wake();
    assert_eq!(events.next_event(), Some((Event::Wake, 4)));
    let mut w2 = w.clone();
    w2.wake();
    assert_eq!(events.next_event(), Some((Event::Wake, 4)));
}

#[test]
fn event_sender_sends_in_order() {
    let (mut sender, mut receiver) = event_channel();
    sender.spawn(1);
    sender.wake(2);
    sender.send(Event::Spawn, 3);
    assert_eq!(receiver.next_event(), Some((Event::Spawn, 1)));
    assert_eq!(receiver.next_event(), Some((Event::Wake, 2)));
    assert_eq!(receiver.next_event(), Some((Event::Spawn, 3)));
    drop(sender);
    assert_eq!(receiver.next_event(), None);
}

#[test]
fn asked_poll_choice_is_kept() {
    assert!(choose_poll_immediate(Some(true)));
    assert!(!choose_poll_immediate(Some(false)));
    let _coin = choose_poll_immediate(None);
}

#[test]
fn future_wins_over_cancel_signal() {
    assert!(matches!(race_after_future::<u32, &str>(Some(1)), RaceStep::Finished(Ok(1))));
    assert!(matches!(race_after_future::<u32, &str>(None), RaceStep::PollCancel));
    assert_eq!(race_after_cancel::<u32, &str>(Some("ctrl-c")), Some(Err("ctrl-c")));
    assert_eq!(race_after_cancel::<u32, &str>(None), None);
}

#[test]
fn poll_decoding() {
    assert!(matches!(report_poll::<u32, u32>(Received::Message(4)), TaskPoll::Ready(4)));
    assert!(matches!(report_poll::<u32, u32>(Received::Empty), TaskPoll::Pending));
    let (s, w) = rt_channel::<u32>();
    assert!(matches!(first_poll::<u32, u32>(Some(WaitResult::Output(6)), s, w), TaskPoll::ReadyNow(6)));
    let (s, w) = rt_channel::<u32>();
    assert!(matches!(first_poll::<u32, u32>(None, s, w), TaskPoll::Start(_, _)));
}

#[test]
fn sender_from_task_feeds_its_first_poll() {
    let (mut t, mut sender) = task::<u32, u32, u8>(7);
    sender.send_output(42);
    assert!(matches!(t.poll_step(), TaskPoll::ReadyNow(42)));
    assert!(t.is_done());
    assert!(t.is_finished(false));
    assert_eq!(t.id(), 7);
}

#[test]
fn spawn_event_only_when_asked() {
    let (mut rt, mut events) = Rt::new();
    let (ctx, _t) = rt.new_task::<u32, u8>("quiet");
    rt.push_task(ctx, false);
    let (ctx, _t2) = rt.new_task::<u32, u8>("loud");
    rt.push_task(ctx, true);
    assert_eq!(events.next_event(), Some((Event::Spawn, 1)));
}

#[test]
fn current_runtime_is_found_in_its_slot() {
    let mut slot: Option<Rt> = None;
    assert!(Rt::try_current(&mut slot).is_none());
    let (rt, _events) = Rt::new();
    slot = Some(rt);
    let (ctx, _task) = Rt::current(&mut slot).new_task::<u32, u8>("f");
    assert_eq!(ctx.id(), 0);
    assert_eq!(Rt::try_current(&mut slot).map(|rt| rt.issued_ids()), Some(1));
}
