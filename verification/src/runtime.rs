//! The bookkeeping of a single-threaded task runtime: task ids, the map of
//! tasks that wait to be polled, the events that ask for a poll, and what
//! happens to a task after each poll.
//!
//! Polling a task's future, building wakers and running the event loop are
//! left to the caller: each step here says exactly what it does to the
//! runtime's state given what the poll returned.

use crate::channel::{open, Inbox, Outbox, ReceiveKind, Received};
use crate::sleep::{
    output_message, rt_channel, spec_try_result, FutureHandles, RtSender, RtWaiter, WaitResult,
};
use std::collections::BTreeMap;
use std::future::Future;
use std::pin::Pin;
use std::sync::mpsc::Receiver;
use vstd::prelude::*;

verus! {

/// Why a task is to be polled.
#[derive(PartialEq, Eq, Structural, Clone, Copy, Debug)]
pub enum Event {
    /// The task was just spawned.
    Spawn,
    /// The task's waker was woken.
    Wake,
}

/// The sending end of the runtime's event queue.
pub struct EventSender(Outbox<(Event, u64)>);

impl EventSender {
    /// The receiving end that this sender feeds.
    pub closed spec fn peer(&self) -> Receiver<(Event, u64)> {
        self.0.peer()
    }

    /// The events queued through this sender, in order.
    pub closed spec fn sent(&self) -> Seq<(Event, u64)> {
        self.0.sent()
    }

    /// Asks for a first poll of task `task_id`: queues `(Spawn, task_id)`.
    pub fn spawn(&mut self, task_id: u64)
        ensures
            final(self).sent() == old(self).sent().push((Event::Spawn, task_id)),
            final(self).peer() == old(self).peer(),
    {
        self.send(Event::Spawn, task_id);
    }

    /// Asks for another poll of task `task_id`: queues `(Wake, task_id)`.
    pub fn wake(&mut self, task_id: u64)
        ensures
            final(self).sent() == old(self).sent().push((Event::Wake, task_id)),
            final(self).peer() == old(self).peer(),
    {
        self.send(Event::Wake, task_id);
    }

    /// Queues `(event, task_id)`; a closed queue is ignored.
    pub fn send(&mut self, event: Event, task_id: u64)
        ensures
            final(self).sent() == old(self).sent().push((event, task_id)),
            final(self).peer() == old(self).peer(),
    {
        let _delivered = self.0.send((event, task_id));
    }

    /// Another sender that feeds the same queue, with nothing queued
    /// through it yet.
    pub fn duplicate(&self) -> (copy: EventSender)
        ensures
            copy.peer() == self.peer(),
            copy.sent() == Seq::<(Event, u64)>::empty(),
    {
        EventSender(self.0.duplicate())
    }
}

impl Clone for EventSender {
    fn clone(&self) -> (copy: Self)
        ensures
            copy.peer() == self.peer(),
            copy.sent() == Seq::<(Event, u64)>::empty(),
    {
        self.duplicate()
    }
}

/// The event that a receive turns into: a queued event, or `None` once
/// every sender is gone.
pub open spec fn spec_event(received: Received<(Event, u64)>) -> Option<(Event, u64)> {
    match received {
        Received::Message(e) => Some(e),
        _ => None,
    }
}

/// An event is read back as it was queued: a received `(event, task_id)`
/// is that very pair, and a queue with no sender left gives `None`.
pub proof fn lemma_event_read_back(event: Event, task_id: u64)
    ensures
        spec_event(Received::Message((event, task_id))) == Some((event, task_id)),
        spec_event(Received::<(Event, u64)>::Disconnected) is None,
{
}

/// The receiving end of the runtime's event queue.
pub struct EventReceiver(Inbox<(Event, u64)>);

impl EventReceiver {
    /// Which receiving end this is.
    pub closed spec fn id(&self) -> Receiver<(Event, u64)> {
        self.0.id()
    }

    /// The receives made on this end, in order: the kind of each and its
    /// outcome.
    pub closed spec fn log(&self) -> Seq<(ReceiveKind, Received<(Event, u64)>)> {
        self.0.log()
    }

    /// The next event, waiting for one; `None` once every sender is gone.
    /// The result is the event that this blocking receive adds to the
    /// record.
    pub fn next_event(&mut self) -> (e: Option<(Event, u64)>)
        ensures
            final(self).id() == old(self).id(),
            final(self).log() == old(self).log().push(final(self).log().last()),
            final(self).log().last().0 == ReceiveKind::Blocking,
            e == spec_event(final(self).log().last().1),
            final(self).log().last().1 matches Received::Message(m) ==> e == Some(m),
            !(final(self).log().last().1 is Message) ==> e is None,
    {
        match self.0.recv() {
            Received::Message(e) => Some(e),
            _ => None,
        }
    }
}

/// A new event queue: the sender feeds the receiver, and neither has been
/// used.
pub fn event_channel() -> (ends: (EventSender, EventReceiver))
    ensures
        ends.0.peer() == ends.1.id(),
        ends.0.sent() == Seq::<(Event, u64)>::empty(),
        ends.1.log() == Seq::<(ReceiveKind, Received<(Event, u64)>)>::empty(),
{
    let (send, recv) = open();
    (EventSender(send), EventReceiver(recv))
}

/// What wakes task `task_id`: it queues `(Event::Wake, task_id)`.
pub struct TaskWaker {
    pub sender: EventSender,
    pub task_id: u64,
}

impl TaskWaker {
    /// Asks for another poll of this waker's task: queues exactly
    /// `(Wake, task_id)` and changes nothing else.
    pub fn wake(&mut self)
        ensures
            final(self).sender.sent() == old(self).sender.sent().push((Event::Wake, old(self).task_id)),
            final(self).sender.peer() == old(self).sender.peer(),
            final(self).task_id == old(self).task_id,
    {
        self.sender.wake(self.task_id);
    }
}

impl Clone for TaskWaker {
    fn clone(&self) -> (r: Self)
        ensures
            r.task_id == self.task_id,
            r.sender.peer() == self.sender.peer(),
            r.sender.sent() == Seq::<(Event, u64)>::empty(),
    {
        TaskWaker { sender: self.sender.duplicate(), task_id: self.task_id }
    }
}

/// A task as the runtime keeps it: its id, its waker, the channel on which
/// its output is handed to whoever awaits it, and its future `F`.
#[verifier::reject_recursive_types(O)]
pub struct TaskContext<F, O> {
    id: u64,
    pub waker: TaskWaker,
    sender: RtSender<O>,
    pub future: F,
}

impl<F, O> TaskContext<F, O> {
    /// The task's id.
    pub closed spec fn spec_id(&self) -> u64 {
        self.id
    }

    /// The task's future.
    pub closed spec fn spec_future(&self) -> F {
        self.future
    }

    /// The id of the task that the task's waker wakes.
    pub closed spec fn spec_waker_id(&self) -> u64 {
        self.waker.task_id
    }

    /// The task's waker.
    pub closed spec fn spec_waker(&self) -> TaskWaker {
        self.waker
    }

    /// The receiving end of the task's output channel.
    pub closed spec fn spec_channel(&self) -> Receiver<Result<O, ()>> {
        self.sender.peer()
    }

    /// What the task has sent on its output channel.
    pub closed spec fn spec_sent(&self) -> Seq<Result<O, ()>> {
        self.sender.sent()
    }

    /// The task's id.
    pub fn id(&self) -> (id: u64)
        ensures
            id == self.spec_id(),
    {
        self.id
    }

    /// Hands `output` to whoever awaits the task: sends it on the task's
    /// output channel.
    pub fn send_output(&mut self, output: O)
        ensures
            final(self).spec_sent() == old(self).spec_sent().push(output_message(output)),
            final(self).spec_channel() == old(self).spec_channel(),
            final(self).spec_id() == old(self).spec_id(),
            final(self).spec_future() == old(self).spec_future(),
            final(self).spec_waker() == old(self).spec_waker(),
    {
        self.sender.send_output(output);
    }

    /// What becomes of a finished task's output: the entry task (id 0)
    /// gives it back, as the runtime's result, and sends nothing; any other
    /// task sends it on its output channel.
    pub fn handle_entry(&mut self, output: O) -> (r: Option<O>)
        ensures
            final(self).spec_channel() == old(self).spec_channel(),
            final(self).spec_id() == old(self).spec_id(),
            old(self).spec_id() == 0 ==> r == Some(output) && final(self).spec_sent() == old(self).spec_sent(),
            old(self).spec_id() != 0 ==> r is None
                && final(self).spec_sent() == old(self).spec_sent().push(output_message(output)),
    {
        if self.id == 0 {
            Some(output)
        } else {
            self.send_output(output);
            None
        }
    }
}

/// The tasks that wait to be polled, by id.
#[verifier::reject_recursive_types(O)]
pub struct TaskMap<F, O>(BTreeMap<u64, TaskContext<F, O>>);

impl<F, O> TaskMap<F, O> {
    /// The tasks, by id.
    pub closed spec fn view(&self) -> Map<u64, TaskContext<F, O>> {
        self.0@
    }

    /// Every task is filed under its own id.
    pub open spec fn wf(&self) -> bool {
        forall|k: u64| #[trigger] self@.contains_key(k) ==> self@[k].spec_id() == k
    }

    /// An empty map.
    pub fn new() -> (m: Self)
        ensures
            m@ == Map::<u64, TaskContext<F, O>>::empty(),
            m.wf(),
    {
        TaskMap(BTreeMap::new())
    }

    /// Files `task_context` under its id, replacing any task filed there.
    pub fn push_task(&mut self, task_context: TaskContext<F, O>)
        ensures
            final(self)@ == old(self)@.insert(task_context.spec_id(), task_context),
            old(self).wf() ==> final(self).wf(),
    {
        broadcast use vstd::std_specs::btree::group_btree_axioms;
        let id = task_context.id;
        self.0.insert(id, task_context);
        assert forall|k: u64| old(self).wf() && #[trigger] final(self)@.contains_key(k) implies final(self)@[k].spec_id() == k by {
            if k != id {
                assert(old(self)@.contains_key(k));
            }
        }
    }

    /// Takes task `task_id` out of the map.
    pub fn remove_task(&mut self, task_id: u64) -> (task_context: TaskContext<F, O>)
        requires
            old(self)@.contains_key(task_id),
        ensures
            task_context == old(self)@[task_id],
            final(self)@ == old(self)@.remove(task_id),
            old(self).wf() ==> final(self).wf() && task_context.spec_id() == task_id,
    {
        broadcast use vstd::std_specs::btree::group_btree_axioms;
        let removed = self.0.remove(&task_id);
        removed.unwrap()
    }

    /// Whether task `task_id` is in the map.
    pub fn has_task(&self, task_id: u64) -> (r: bool)
        ensures
            r == self@.contains_key(task_id),
    {
        broadcast use vstd::std_specs::btree::group_btree_axioms;
        self.0.contains_key(&task_id)
    }
}

/// Hands out task ids: 0, 1, 2, ...
pub struct IdGen(u64);

impl IdGen {
    /// The next id to be handed out.
    pub closed spec fn view(&self) -> u64 {
        self.0
    }

    /// A generator whose first id is 0.
    pub fn new() -> (g: Self)
        ensures
            g@ == 0,
    {
        IdGen(0)
    }

    /// Hands out the next id.
    pub fn next(&mut self) -> (id: u64)
        requires
            old(self)@ < u64::MAX,
        ensures
            id == old(self)@,
            final(self)@ == old(self)@ + 1,
    {
        let next_id = self.0;
        self.0 = self.0 + 1;
        next_id
    }
}

/// A handle on a spawned task's output: awaiting it yields the output once
/// the task has finished. `T` is the output, `O` what the task's channel
/// carries, `J` the handle of the helper thread that waits on that channel.
#[verifier::reject_recursive_types(T)]
#[verifier::reject_recursive_types(O)]
pub struct Task<T, O, J> {
    id: u64,
    handles: Option<FutureHandles<T, O, J>>,
    done: bool,
    output_channel: Option<(RtSender<O>, RtWaiter<O>)>,
    looked: Ghost<RtWaiter<O>>,
}

/// What a poll of a `Task` asks of its caller.
#[verifier::reject_recursive_types(O)]
pub enum TaskPoll<T, O> {
    /// The helper thread has reported the output.
    Ready(T),
    /// The output was already on the task's channel at the first poll.
    ReadyNow(O),
    /// No output yet: refresh the helper thread's waker.
    Pending,
    /// First poll and no output yet: start a helper thread that waits on
    /// the given receiving end, then hand its handles, with the given
    /// sending end, to `start`.
    Start(RtSender<O>, RtWaiter<O>),
}

/// What the helper thread's report turns into: the output it reported is
/// `Ready`; none yet (or a helper thread that is gone) is `Pending`.
pub open spec fn spec_report_poll<T, O>(received: Received<T>) -> TaskPoll<T, O> {
    match received {
        Received::Message(output) => TaskPoll::Ready(output),
        _ => TaskPoll::Pending,
    }
}

/// The helper thread's report is what a poll answers: a reported output
/// `o` is `Ready(o)`, and no report, or a helper thread that is gone, is
/// `Pending`.
pub proof fn lemma_report_read_back<T, O>(output: T)
    ensures
        spec_report_poll::<T, O>(Received::Message(output)) == TaskPoll::<T, O>::Ready(output),
        spec_report_poll::<T, O>(Received::<T>::Empty) is Pending,
        spec_report_poll::<T, O>(Received::<T>::Disconnected) is Pending,
{
}

/// Decodes the outcome of a look for the helper thread's report.
pub fn report_poll<T, O>(received: Received<T>) -> (r: TaskPoll<T, O>)
    ensures
        r == spec_report_poll::<T, O>(received),
{
    match received {
        Received::Message(output) => TaskPoll::Ready(output),
        _ => TaskPoll::Pending,
    }
}

/// How the first poll answers, given what its look at the task's channel
/// found: an output already waiting is returned as `ReadyNow`; otherwise
/// the answer is `Start` with the channel's sending end and its receiving
/// end (identified by `id`, its record `log`).
pub open spec fn spec_first_poll<T, O>(
    waiting: Option<WaitResult<O>>,
    sender: RtSender<O>,
    id: Receiver<Result<O, ()>>,
    log: Seq<(ReceiveKind, Received<Result<O, ()>>)>,
    r: TaskPoll<T, O>,
) -> bool {
    match waiting {
        Some(WaitResult::Output(output)) => r == TaskPoll::<T, O>::ReadyNow(output),
        _ => r matches TaskPoll::Start(s, w) && s == sender && w.id() == id && w.log() == log,
    }
}

/// Decides the first poll from what the look at the channel found.
pub fn first_poll<T, O>(waiting: Option<WaitResult<O>>, sender: RtSender<O>, waiter: RtWaiter<O>) -> (r: TaskPoll<T, O>)
    ensures
        spec_first_poll(waiting, sender, waiter.id(), waiter.log(), r),
{
    match waiting {
        Some(WaitResult::Output(output)) => TaskPoll::ReadyNow(output),
        _ => TaskPoll::Start(sender, waiter),
    }
}

impl<T, O, J> Task<T, O, J> {
    /// The task's id.
    pub closed spec fn spec_id(&self) -> u64 {
        self.id
    }

    /// The helper thread's handles, once it has been started.
    pub closed spec fn spec_handles(&self) -> Option<FutureHandles<T, O, J>> {
        self.handles
    }

    /// Whether a poll has returned an output.
    pub closed spec fn spec_done(&self) -> bool {
        self.done
    }

    /// Whether the task's channel has not been taken yet.
    pub closed spec fn has_channel(&self) -> bool {
        self.output_channel is Some
    }

    /// The task's channel, until the first poll takes it.
    pub closed spec fn spec_channel(&self) -> Option<(RtSender<O>, RtWaiter<O>)> {
        self.output_channel
    }

    /// The receiving end of the task's channel.
    pub closed spec fn channel_id(&self) -> Receiver<Result<O, ()>> {
        (self.output_channel->0).1.id()
    }

    /// The receiving end of the task's channel as the first poll left it
    /// (before that poll, as it was made).
    pub closed spec fn spec_looked(&self) -> RtWaiter<O> {
        self.looked@
    }

    /// What the receives on the task's channel came back with, as of the
    /// first poll, which takes the channel.
    pub open spec fn spec_channel_log(&self) -> Seq<(ReceiveKind, Received<Result<O, ()>>)> {
        self.spec_looked().log()
    }

    /// Until an output has been returned, exactly one of the channel and
    /// the helper thread is held.
    pub open spec fn wf(&self) -> bool {
        &&& !self.spec_done() ==> (self.spec_handles() is None <==> self.has_channel())
        &&& self.has_channel() ==> (self.spec_channel()->0).0.peer() == self.channel_id()
    }

    /// Whether the task may be polled: no poll has returned its output yet,
    /// and it holds its channel (before the first poll) or a started helper
    /// thread (after it).
    pub open spec fn can_poll(&self) -> bool {
        !self.spec_done() && self.wf()
    }

    /// What one `poll_step` does, from the task `before` to the task
    /// `after`, answering `r`. With a helper thread running, it looks
    /// without blocking for the thread's report and answers with its
    /// decoding; at the first poll it takes the task's channel, looks
    /// without blocking for an output already waiting there, and answers
    /// as `spec_first_poll` says. Either way the task is done exactly when
    /// the answer carries the output.
    pub open spec fn poll_outcome(before: Self, after: Self, r: TaskPoll<T, O>) -> bool {
        &&& after.spec_id() == before.spec_id()
        &&& before.spec_handles() is Some ==> ({
            let h = before.spec_handles()->0;
            let fh = after.spec_handles()->0;
            &&& after.spec_handles() is Some
            &&& fh.thread == h.thread
            &&& fh.cancelable_sender == h.cancelable_sender
            &&& fh.output.id() == h.output.id()
            &&& fh.output.log() == h.output.log().push(fh.output.log().last())
            &&& fh.output.log().last().0 == ReceiveKind::Try
            &&& r == spec_report_poll::<T, O>(fh.output.log().last().1)
            &&& after.spec_done() == (r is Ready)
            &&& after.has_channel() == before.has_channel()
        })
        &&& before.spec_handles() is None ==> ({
            let (sender, waiter) = before.spec_channel()->0;
            let log = after.spec_channel_log();
            &&& !after.has_channel()
            &&& after.spec_handles() is None
            &&& after.spec_looked().id() == waiter.id()
            &&& log == waiter.log().push(log.last())
            &&& log.last().0 == ReceiveKind::Try
            &&& spec_first_poll(spec_try_result(log.last().1), sender, waiter.id(), log, r)
            &&& after.spec_done() == (r is ReadyNow)
        })
    }

    /// The task's id.
    pub fn id(&self) -> (id: u64)
        ensures
            id == self.spec_id(),
    {
        self.id
    }

    /// Whether a poll has returned an output.
    pub fn is_done(&self) -> (r: bool)
        ensures
            r == self.spec_done(),
    {
        self.done
    }

    /// The helper thread, once it has been started.
    pub fn thread(&self) -> (t: Option<&J>)
        ensures
            t == (match self.spec_handles() {
                Some(h) => Some(&h.thread),
                None => None,
            }),
    {
        match &self.handles {
            Some(h) => Some(&h.thread),
            None => None,
        }
    }

    /// Whether the task counts as finished, given whether the helper thread
    /// has finished: it does once a poll returned its output, as long as no
    /// helper thread was started, and once the helper thread has finished.
    pub fn is_finished(&self, thread_finished: bool) -> (r: bool)
        ensures
            r == (self.spec_done() || self.spec_handles() is None || thread_finished),
    {
        self.done || match &self.handles {
            None => true,
            Some(_) => thread_finished,
        }
    }

    /// One poll. With a helper thread running, it looks without blocking
    /// for the thread's report and answers with its decoding
    /// (`report_poll`). At the first poll it takes the task's channel and
    /// looks, without blocking, for an output already waiting there: one is
    /// returned at once, otherwise the caller is asked to start the helper
    /// thread (`first_poll`). A poll after an output was returned is
    /// refused by the `requires`.
    pub fn poll_step(&mut self) -> (r: TaskPoll<T, O>)
        requires
            old(self).can_poll(),
        ensures
            Self::poll_outcome(*old(self), *final(self), r),
    {
        if self.handles.is_some() {
            let r = match &mut self.handles {
                Some(handles) => {
                    let received = handles.output.try_recv();
                    report_poll(received)
                },
                None => TaskPoll::Pending,
            };
            if let TaskPoll::Ready(_) = &r {
                self.done = true;
            }
            r
        } else {
            let taken = self.output_channel.take();
            let (cancelable_sender, mut cancelable_waiter) = taken.unwrap();
            let waiting = cancelable_waiter.try_wait_output();
            proof {
                self.looked@ = cancelable_waiter;
            }
            let r = first_poll(waiting, cancelable_sender, cancelable_waiter);
            if let TaskPoll::ReadyNow(_) = &r {
                self.done = true;
            }
            r
        }
    }

    /// Records the helper thread that was started after `TaskPoll::Start`.
    pub fn start(&mut self, handles: FutureHandles<T, O, J>)
        requires
            old(self).spec_handles() is None,
            !old(self).has_channel(),
            !old(self).spec_done(),
        ensures
            final(self).spec_handles() == Some(handles),
            final(self).spec_id() == old(self).spec_id(),
            !final(self).spec_done(),
            final(self).can_poll(),
    {
        self.handles = Some(handles);
    }

    /// Takes the helper thread's handles out, as dropping the task does.
    pub fn take_handles(&mut self) -> (handles: Option<FutureHandles<T, O, J>>)
        ensures
            handles == old(self).spec_handles(),
            final(self).spec_handles() is None,
            final(self).spec_id() == old(self).spec_id(),
            final(self).spec_done() == old(self).spec_done(),
    {
        self.handles.take()
    }
}

/// Tasks made one after the other get consecutive ids: with the counter at
/// `n`, the first gets `n` and the second `n + 1`, and the counter then
/// holds `n + 2`. Filing the first task in between (`push_task` or
/// `after_immediate_poll`) leaves the counter alone, as their contracts
/// state. So once the entry task has taken id 0, no task made after it gets
/// id 0.
pub proof fn lemma_spawn_ids<F, O, T, J>(
    first_before: Runtime<F, O>,
    first_after: Runtime<F, O>,
    second_before: Runtime<F, O>,
    second_after: Runtime<F, O>,
    first_future: F,
    second_future: F,
    first: (TaskContext<F, O>, Task<T, O, J>),
    second: (TaskContext<F, O>, Task<T, O, J>),
)
    requires
        Runtime::new_task_outcome(first_before, first_after, first_future, first),
        second_before.next_id() == first_after.next_id(),
        Runtime::new_task_outcome(second_before, second_after, second_future, second),
    ensures
        first.1.spec_id() == first_before.next_id(),
        second.1.spec_id() == first_before.next_id() + 1,
        second_after.next_id() == first_before.next_id() + 2,
        second.1.spec_id() != 0,
{
}

/// A task is polled to its output at most once: after a poll that returned
/// the output (`Ready` or `ReadyNow`) the task is done and `can_poll`, which
/// `poll_step` requires, no longer holds, and nothing makes it hold again
/// (`start` requires a task that is not done; `take_handles` keeps it done).
/// A poll that answers `Pending` leaves the task pollable.
pub proof fn lemma_no_poll_after_output<T, O, J>(before: Task<T, O, J>, after: Task<T, O, J>, r: TaskPoll<T, O>)
    requires
        before.can_poll(),
        Task::poll_outcome(before, after, r),
    ensures
        (r is Ready || r is ReadyNow) ==> after.spec_done() && !after.can_poll(),
        r is Pending ==> after.can_poll(),
{
}

/// A new task `task_id` that has not been polled, with a sending end of
/// its own channel, on which its output is to be sent.
pub fn task<T, O, J>(task_id: u64) -> (r: (Task<T, O, J>, RtSender<O>))
    ensures
        r.0.spec_id() == task_id,
        r.0.spec_handles() is None,
        !r.0.spec_done(),
        r.0.has_channel(),
        r.0.can_poll(),
        (r.0.spec_channel()->0).0.peer() == r.0.channel_id(),
        (r.0.spec_channel()->0).0.sent() == Seq::<Result<O, ()>>::empty(),
        r.1.peer() == r.0.channel_id(),
        r.1.sent() == Seq::<Result<O, ()>>::empty(),
{
    let channel = rt_channel();
    let rt_sender = channel.0.duplicate();
    let ghost waiter = channel.1;
    let task = Task {
        id: task_id,
        handles: None,
        done: false,
        output_channel: Some(channel),
        looked: Ghost(waiter),
    };
    (task, rt_sender)
}

/// The bookkeeping of a runtime: the id generator, the event queue's
/// sending end, and the tasks that wait to be polled.
#[verifier::reject_recursive_types(O)]
pub struct Runtime<F, O> {
    id_gen: IdGen,
    event_sender: EventSender,
    task_map: TaskMap<F, O>,
    handed_on: Ghost<Map<u64, RtSender<O>>>,
}

impl<F, O> Runtime<F, O> {
    /// The events queued through the runtime's own event sender, in order.
    pub closed spec fn events_sent(&self) -> Seq<(Event, u64)> {
        self.event_sender.sent()
    }

    /// The receiving end of the runtime's event queue.
    pub closed spec fn event_peer(&self) -> Receiver<(Event, u64)> {
        self.event_sender.peer()
    }

    /// For each task that finished here, the sending end of its output
    /// channel as it was when the task's context was dropped: which
    /// receiving end it fed, and what had been sent through it.
    pub closed spec fn handed_on(&self) -> Map<u64, RtSender<O>> {
        self.handed_on@
    }

    /// The tasks that wait to be polled, by id.
    pub closed spec fn tasks(&self) -> Map<u64, TaskContext<F, O>> {
        self.task_map@
    }

    /// The id that the next task gets.
    pub closed spec fn next_id(&self) -> u64 {
        self.id_gen@
    }

    /// Every task is filed under its own id, and every id in the map has
    /// been handed out already.
    pub open spec fn wf(&self) -> bool {
        &&& forall|k: u64| #[trigger] self.tasks().contains_key(k) ==> self.tasks()[k].spec_id() == k
        &&& forall|k: u64| #[trigger] self.tasks().contains_key(k) ==> k < self.next_id()
    }

    /// The task map's own well-formedness is the first half of `wf`.
    proof fn lemma_map_wf(&self)
        ensures
            self.task_map.wf() == (forall|k: u64| #[trigger] self.tasks().contains_key(k) ==> self.tasks()[k].spec_id() == k),
    {
        assert(self.tasks() == self.task_map@);
        if self.task_map.wf() {
            assert forall|k: u64| #[trigger] self.tasks().contains_key(k) implies self.tasks()[k].spec_id() == k by {
                assert(self.task_map@.contains_key(k));
            }
        }
        if forall|k: u64| #[trigger] self.tasks().contains_key(k) ==> self.tasks()[k].spec_id() == k {
            assert forall|k: u64| #[trigger] self.task_map@.contains_key(k) implies self.task_map@[k].spec_id() == k by {
                assert(self.tasks().contains_key(k));
            }
        }
    }

    /// A runtime with no task, whose first task gets id 0, and the receiving
    /// end of its event queue.
    pub fn new() -> (r: (Self, EventReceiver))
        ensures
            r.0.tasks() == Map::<u64, TaskContext<F, O>>::empty(),
            r.0.next_id() == 0,
            r.0.wf(),
            r.0.event_peer() == r.1.id(),
            r.0.events_sent() == Seq::<(Event, u64)>::empty(),
            r.0.handed_on() == Map::<u64, RtSender<O>>::empty(),
    {
        let (event_sender, event_recver) = event_channel();
        let runtime = Runtime {
            id_gen: IdGen::new(),
            event_sender,
            task_map: TaskMap::new(),
            handed_on: Ghost(Map::empty()),
        };
        (runtime, event_recver)
    }

    /// The runtime held in `slot` (the running runtime of a thread), if one
    /// is running.
    pub fn try_current(slot: &mut Option<Self>) -> (r: Option<&mut Self>)
        ensures
            r is Some <==> *old(slot) is Some,
            r matches Some(rt) ==> *rt == (*old(slot))->0,
            r matches Some(rt) ==> *final(slot) == Some(*final(rt)),
            r is None ==> *final(slot) == *old(slot),
    {
        match slot {
            Some(rt) => Some(rt),
            None => None,
        }
    }

    /// The runtime held in `slot`; a slot with no runtime running is
    /// refused by the `requires`.
    pub fn current(slot: &mut Option<Self>) -> (rt: &mut Self)
        requires
            *old(slot) is Some,
        ensures
            *rt == (*old(slot))->0,
            *final(slot) == Some(*final(rt)),
    {
        match slot {
            Some(rt) => rt,
            None => {
                proof {
                    assert(false);
                }
                vstd::pervasive::unreached()
            },
        }
    }

    /// The id that the next task gets.
    pub fn issued_ids(&self) -> (n: u64)
        ensures
            n == self.next_id(),
    {
        self.id_gen.0
    }

    /// A waker for task `task_id`.
    pub fn waker(&self, task_id: u64) -> (w: TaskWaker)
        ensures
            w.task_id == task_id,
            w.sender.peer() == self.event_peer(),
            w.sender.sent() == Seq::<(Event, u64)>::empty(),
    {
        let sender = self.event_sender.duplicate();
        TaskWaker { sender, task_id }
    }

    /// What `new_task` does, from the runtime `before` to the runtime
    /// `after`, for `future`, giving `r`: the task's context and its handle
    /// both carry the counter's value as id, the context holds `future`,
    /// a waker on the runtime's event queue and the sending end of the
    /// task's channel, and the counter goes up by one; nothing else of the
    /// runtime changes.
    pub open spec fn new_task_outcome<T, J>(
        before: Self,
        after: Self,
        future: F,
        r: (TaskContext<F, O>, Task<T, O, J>),
    ) -> bool {
        &&& r.0.spec_id() == before.next_id()
        &&& r.0.spec_future() == future
        &&& r.0.spec_waker_id() == before.next_id()
        &&& r.1.spec_id() == before.next_id()
        &&& r.1.spec_handles() is None
        &&& !r.1.spec_done()
        &&& r.1.has_channel()
        &&& r.1.can_poll()
        &&& (r.1.spec_channel()->0).0.peer() == r.1.channel_id()
        &&& r.0.spec_channel() == r.1.channel_id()
        &&& r.0.spec_sent() == Seq::<Result<O, ()>>::empty()
        &&& r.0.spec_waker().sender.peer() == before.event_peer()
        &&& after.next_id() == before.next_id() + 1
        &&& after.tasks() == before.tasks()
        &&& after.events_sent() == before.events_sent()
        &&& after.event_peer() == before.event_peer()
        &&& after.handed_on() == before.handed_on()
        &&& before.wf() ==> after.wf() && !before.tasks().contains_key(r.0.spec_id())
    }

    /// Makes a new task of `future` under the next id: its context, which
    /// is not yet in the map, and the handle on its output.
    pub fn new_task<T, J>(&mut self, future: F) -> (r: (TaskContext<F, O>, Task<T, O, J>))
        requires
            old(self).next_id() < u64::MAX,
        ensures
            Self::new_task_outcome(*old(self), *final(self), future, r),
    {
        let id = self.id_gen.next();
        let waker = self.waker(id);
        let (task, sender) = task(id);
        let task_context = TaskContext { id, waker, sender, future };
        (task_context, task)
    }

    /// Files `task_context` in the map; with `spawn`, also queues a first
    /// poll of it.
    pub fn push_task(&mut self, task_context: TaskContext<F, O>, spawn: bool)
        ensures
            final(self).tasks() == old(self).tasks().insert(task_context.spec_id(), task_context),
            final(self).next_id() == old(self).next_id(),
            spawn ==> final(self).events_sent() == old(self).events_sent().push((Event::Spawn, task_context.spec_id())),
            !spawn ==> final(self).events_sent() == old(self).events_sent(),
            final(self).event_peer() == old(self).event_peer(),
            final(self).handed_on() == old(self).handed_on(),
            old(self).wf() && task_context.spec_id() < old(self).next_id() ==> final(self).wf(),
    {
        let task_id = task_context.id;
        proof { self.lemma_map_wf(); }
        self.task_map.push_task(task_context);
        proof {
            self.lemma_map_wf();
            if old(self).wf() && task_id < old(self).next_id() {
                assert forall|k: u64| #[trigger] self.tasks().contains_key(k) implies k < self.next_id() by {
                    if k != task_id {
                        assert(old(self).tasks().contains_key(k));
                    }
                }
            }
        }
        let ghost mid = *self;
        if spawn {
            self.event_sender.spawn(task_id);
        }
        assert(self.tasks() == mid.tasks());
        assert(self.next_id() == mid.next_id());
    }

    /// The first step for an event about task `task_id`: the task is taken
    /// out of the map to be polled, or, when it is not there (it finished
    /// already), the event is skipped.
    pub fn take_for_event(&mut self, task_id: u64) -> (r: Option<TaskContext<F, O>>)
        ensures
            final(self).next_id() == old(self).next_id(),
            final(self).events_sent() == old(self).events_sent(),
            final(self).event_peer() == old(self).event_peer(),
            final(self).handed_on() == old(self).handed_on(),
            old(self).tasks().contains_key(task_id) ==> {
                &&& r == Some(old(self).tasks()[task_id])
                &&& final(self).tasks() == old(self).tasks().remove(task_id)
            },
            !old(self).tasks().contains_key(task_id) ==> r is None && final(self).tasks() == old(self).tasks(),
            old(self).wf() ==> final(self).wf(),
            old(self).wf() && r is Some ==> r->0.spec_id() == task_id,
    {
        proof { self.lemma_map_wf(); }
        if !self.task_map.has_task(task_id) {
            return None;
        }
        let task_context = self.task_map.remove_task(task_id);
        proof { self.lemma_map_wf(); }
        Some(task_context)
    }

    /// How a finished task is dropped: `handed_on` gets, under its id, the
    /// sending end of its output channel, which feeds that channel and has
    /// sent what the context had sent, followed by `message`.
    pub open spec fn hands_on(before: Self, after: Self, task_context: TaskContext<F, O>, message: Result<O, ()>) -> bool {
        let id = task_context.spec_id();
        &&& after.handed_on() == before.handed_on().insert(id, after.handed_on()[id])
        &&& after.handed_on()[id].peer() == task_context.spec_channel()
        &&& after.handed_on()[id].sent() == task_context.spec_sent().push(message)
    }

    /// What `after_poll` does, from the runtime `before` to the runtime
    /// `after`, for `event` and the task `task_context` whose poll gave
    /// `poll`, answering `r`. A finished entry task gives its output back
    /// and sends nothing; another finished task sends its output on its
    /// channel and is dropped; a pending task is filed back, with a wake of
    /// it queued again when a wake caused the poll. The counter and the
    /// event queue's receiving end never change.
    pub open spec fn after_poll_outcome(
        before: Self,
        after: Self,
        event: Event,
        task_context: TaskContext<F, O>,
        poll: Option<O>,
        r: Option<O>,
    ) -> bool {
        &&& after.next_id() == before.next_id()
        &&& after.event_peer() == before.event_peer()
        &&& poll is Some && task_context.spec_id() == 0 ==> {
            &&& r == poll
            &&& after.tasks() == before.tasks()
            &&& after.events_sent() == before.events_sent()
            &&& after.handed_on() == before.handed_on()
        }
        &&& poll is Some && task_context.spec_id() != 0 ==> {
            &&& r is None
            &&& after.tasks() == before.tasks()
            &&& after.events_sent() == before.events_sent()
            &&& Self::hands_on(before, after, task_context, output_message(poll->0))
        }
        &&& poll is None ==> {
            &&& r is None
            &&& after.tasks() == before.tasks().insert(task_context.spec_id(), task_context)
            &&& after.handed_on() == before.handed_on()
            &&& event == Event::Spawn ==> after.events_sent() == before.events_sent()
            &&& event == Event::Wake ==> after.events_sent()
                == before.events_sent().push((Event::Wake, task_context.spec_id()))
        }
    }

    /// What `after_immediate_poll` does, from the runtime `before` to the
    /// runtime `after`, for a new task `task_context` whose poll on the spot
    /// gave `poll`: a finished task sends its output on its channel and is
    /// dropped, a pending one is filed in the map; nothing is queued and the
    /// counter does not change.
    pub open spec fn after_immediate_poll_outcome(
        before: Self,
        after: Self,
        task_context: TaskContext<F, O>,
        poll: Option<O>,
    ) -> bool {
        &&& after.next_id() == before.next_id()
        &&& after.events_sent() == before.events_sent()
        &&& after.event_peer() == before.event_peer()
        &&& poll is Some ==> {
            &&& after.tasks() == before.tasks()
            &&& Self::hands_on(before, after, task_context, output_message(poll->0))
        }
        &&& poll is None ==> {
            &&& after.tasks() == before.tasks().insert(task_context.spec_id(), task_context)
            &&& after.handed_on() == before.handed_on()
        }
    }

    /// The last step for an event, given what the poll of `task_context`
    /// returned (`Some` output, or `None` for pending). A finished entry
    /// task gives its output back, as the runtime's result; another
    /// finished task sends its output on its channel and is dropped. A
    /// pending task is filed back; when a wake caused the poll, a wake of
    /// it is queued again, and after a spawn nothing is queued.
    pub fn after_poll(&mut self, event: Event, task_context: TaskContext<F, O>, poll: Option<O>) -> (r: Option<O>)
        ensures
            Self::after_poll_outcome(*old(self), *final(self), event, task_context, poll, r),
            old(self).wf() && (poll is Some || task_context.spec_id() < old(self).next_id()) ==> final(self).wf(),
    {
        match poll {
            Some(output) => {
                let mut task_context = task_context;
                let task_id = task_context.id;
                let r = task_context.handle_entry(output);
                let ghost before = *self;
                if task_id != 0 {
                    proof {
                        self.handed_on@ = self.handed_on@.insert(task_id, task_context.sender);
                    }
                }
                assert(self.tasks() == before.tasks());
                assert(self.next_id() == before.next_id());
                r
            },
            None => {
                let task_id = task_context.id;
                match event {
                    Event::Spawn => {
                        self.push_task(task_context, false);
                    },
                    Event::Wake => {
                        self.push_task(task_context, false);
                        let ghost mid = *self;
                        self.event_sender.wake(task_id);
                        assert(self.tasks() == mid.tasks());
                        assert(self.next_id() == mid.next_id());
                    },
                }
                None
            },
        }
    }

    /// What a spawn does after polling the new task at once: its output is
    /// sent on its channel, or, when it is pending, it is filed in the map.
    /// Nothing is queued either way.
    pub fn after_immediate_poll(&mut self, task_context: TaskContext<F, O>, poll: Option<O>)
        ensures
            Self::after_immediate_poll_outcome(*old(self), *final(self), task_context, poll),
            old(self).wf() && (poll is Some || task_context.spec_id() < old(self).next_id()) ==> final(self).wf(),
    {
        match poll {
            Some(output) => {
                let mut task_context = task_context;
                let task_id = task_context.id;
                task_context.send_output(output);
                proof {
                    self.handed_on@ = self.handed_on@.insert(task_id, task_context.sender);
                }
            },
            None => self.push_task(task_context, false),
        }
    }
}

/// The sending end that a task hands out at its first poll, to cancel
/// the helper thread with, feeds the very receiving end that the helper
/// thread waits on; the pair is the task's own channel, on which the
/// task's output is also sent.
pub proof fn lemma_start_pair_connected<T, O, J>(before: Task<T, O, J>, after: Task<T, O, J>, r: TaskPoll<T, O>)
    requires
        before.can_poll(),
        Task::poll_outcome(before, after, r),
        r is Start,
    ensures
        r->Start_0.peer() == r->Start_1.id(),
        r->Start_1.id() == before.channel_id(),
{
}

/// The first poll answers with what its look at the task's own channel
/// found: an output `o` already waiting is returned as `ReadyNow(o)` and
/// the task is done; finding nothing (or a cancel, or no sender left) asks
/// for the helper thread with `Start`, handing on the task's channel.
pub proof fn lemma_first_poll_reads_channel<T, O, J>(before: Task<T, O, J>, after: Task<T, O, J>, r: TaskPoll<T, O>)
    requires
        before.can_poll(),
        before.spec_handles() is None,
        Task::poll_outcome(before, after, r),
    ensures
        after.spec_looked().id() == before.channel_id(),
        after.spec_channel_log().last().0 == ReceiveKind::Try,
        after.spec_channel_log().last().1 matches Received::Message(Ok(o)) ==> r == TaskPoll::<T, O>::ReadyNow(o)
            && after.spec_done(),
        !(after.spec_channel_log().last().1 matches Received::Message(Ok(_))) ==> r is Start
            && !after.spec_done(),
{
}

/// A finished task's output reaches its own channel, whatever event caused
/// the poll: for a task other than the entry task, the sending end dropped
/// with it feeds the task's output channel and has sent exactly what it had
/// sent before and then `Ok(output)`, and nothing is returned. The entry
/// task's output is returned instead, and nothing is sent. Either way the
/// task is not filed back.
pub proof fn lemma_finished_output_sent<F, O>(
    before: Runtime<F, O>,
    after: Runtime<F, O>,
    event: Event,
    task_context: TaskContext<F, O>,
    output: O,
    r: Option<O>,
)
    requires
        Runtime::after_poll_outcome(before, after, event, task_context, Some(output), r),
    ensures
        after.tasks() == before.tasks(),
        task_context.spec_id() != 0 ==> {
            let id = task_context.spec_id();
            &&& r is None
            &&& after.handed_on().contains_key(id)
            &&& after.handed_on()[id].peer() == task_context.spec_channel()
            &&& after.handed_on()[id].sent() == task_context.spec_sent().push(Ok(output))
        },
        task_context.spec_id() == 0 ==> r == Some(output) && after.handed_on() == before.handed_on(),
{
}

/// A task spawned with a poll on the spot that finished sends its output
/// on its own channel, whatever its id: the sending end dropped with it
/// feeds the task's output channel and has sent exactly what it had sent
/// before and then `Ok(output)`; the task is not filed.
pub proof fn lemma_immediate_output_sent<F, O>(
    before: Runtime<F, O>,
    after: Runtime<F, O>,
    task_context: TaskContext<F, O>,
    output: O,
)
    requires
        Runtime::after_immediate_poll_outcome(before, after, task_context, Some(output)),
    ensures
        after.tasks() == before.tasks(),
        after.handed_on().contains_key(task_context.spec_id()),
        after.handed_on()[task_context.spec_id()].peer() == task_context.spec_channel(),
        after.handed_on()[task_context.spec_id()].sent() == task_context.spec_sent().push(Ok(output)),
{
}

/// `rand::random::<bool>()`: a coin toss. Nothing is stated of the result.
#[verifier::external_body]
pub(crate) fn random_flag() -> bool {
    rand::random()
}

/// Whether a spawn polls the new task at once: as asked, or, when not
/// asked, at random.
pub fn choose_poll_immediate(poll_immediate: Option<bool>) -> (r: bool)
    ensures
        poll_immediate matches Some(b) ==> r == b,
{
    match poll_immediate {
        Some(b) => b,
        None => random_flag(),
    }
}

/// A task that is polled and found pending is filed back exactly as it
/// was: taking it out under its id and filing it back under its id gives
/// the same map.
pub proof fn lemma_pending_task_restored<F, O>(tasks: Map<u64, TaskContext<F, O>>, task_id: u64)
    requires
        tasks.contains_key(task_id),
        tasks[task_id].spec_id() == task_id,
    ensures
        tasks.remove(task_id).insert(tasks[task_id].spec_id(), tasks[task_id]) == tasks,
{
    assert(tasks.remove(task_id).insert(tasks[task_id].spec_id(), tasks[task_id]) =~= tasks);
}

/// The id that a well-formed runtime hands out next is not the id of any
/// task that it holds.
pub proof fn lemma_next_id_fresh<F, O>(rt: &Runtime<F, O>)
    requires
        rt.wf(),
    ensures
        !rt.tasks().contains_key(rt.next_id()),
{
}

#[verifier::external_type_specification]
#[verifier::external_body]
#[verifier::reject_recursive_types(P)]
pub struct ExPin<P>(Pin<P>);

/// `Box::pin`: `value` in a pinned box. Nothing is stated of the box, as
/// no view of a pinned box is at hand.
#[verifier::external_body]
fn pin_box<T>(value: T) -> Pin<Box<T>> {
    Box::pin(value)
}

/// A future raced against a cancel signal: it yields `Ok` with the
/// future's output, or `Err` with the signal's output when the signal
/// fires first.
#[verifier::reject_recursive_types(F)]
#[verifier::reject_recursive_types(C)]
pub struct WithCancelSignal<F, C> {
    pub future: Pin<Box<F>>,
    pub cancel: Pin<Box<C>>,
}

/// The first step of a poll of a `WithCancelSignal`, given what the poll
/// of the future returned (`None` for pending).
pub enum RaceStep<A, B> {
    /// The race is decided.
    Finished(Result<A, B>),
    /// The future is pending: poll the cancel signal, then finish with
    /// `race_after_cancel`.
    PollCancel,
}

/// The first step of a poll of a `WithCancelSignal`: a finished future
/// decides the race with `Ok`, and the cancel signal is polled only while
/// the future is pending.
pub fn race_after_future<A, B>(future_output: Option<A>) -> (step: RaceStep<A, B>)
    ensures
        future_output matches Some(a) ==> step == RaceStep::<A, B>::Finished(Ok(a)),
        future_output is None ==> step is PollCancel,
{
    match future_output {
        Some(a) => RaceStep::Finished(Ok(a)),
        None => RaceStep::PollCancel,
    }
}

/// The second step, after the cancel signal was polled (the future being
/// pending): a fired signal decides the race with `Err`; otherwise the
/// race stays pending (`None`).
pub fn race_after_cancel<A, B>(cancel_output: Option<B>) -> (r: Option<Result<A, B>>)
    ensures
        cancel_output matches Some(b) ==> r == Some(Err::<A, B>(b)),
        cancel_output is None ==> r is None,
{
    match cancel_output {
        Some(b) => Some(Err(b)),
        None => None,
    }
}

/// Futures that can be raced against a cancel signal.
pub trait FutureExt: Future + Sized {
    /// This future raced against `cancel`.
    fn with_cancel_signal<C>(self, cancel: C) -> WithCancelSignal<Self, C> {
        WithCancelSignal { future: pin_box(self), cancel: pin_box(cancel) }
    }
}

impl<T: Future + Sized> FutureExt for T {
}

} // verus!
