//! A sleep future driven by a helper thread, and the cancelable channel that
//! the helper thread waits on.
//!
//! A channel carries `Result<O, ()>`: `Ok(output)` is an output, `Err(())`
//! asks the waiting side to stop. The decoders below say exactly which
//! `WaitResult` each thing that a receive can come back with turns into.

use crate::channel::{open, Inbox, Outbox, ReceiveKind, Received};
use std::sync::mpsc::Receiver;
use std::time::Duration;
use vstd::prelude::*;

verus! {

/// The message that carries an output.
pub open spec fn output_message<O>(output: O) -> Result<O, ()> {
    Ok(output)
}

/// The message that asks the waiting side to stop.
pub open spec fn cancel_message<O>() -> Result<O, ()> {
    Err(())
}

/// How a waiting side ended.
pub enum WaitResult<O> {
    /// An output arrived.
    Output(O),
    /// The wait was canceled, or every sender is gone.
    Canceled,
    /// The time ran out first.
    Elapsed,
}

/// What a message turns into on the waiting side.
pub open spec fn spec_message_result<O>(message: Result<O, ()>) -> WaitResult<O> {
    match message {
        Ok(output) => WaitResult::Output(output),
        Err(()) => WaitResult::Canceled,
    }
}

/// What a receive with a time limit turns into. (A receive with a time
/// limit never comes back `Empty`; it would read as no message in time.)
pub open spec fn spec_timeout_result<O>(received: Received<Result<O, ()>>) -> WaitResult<O> {
    match received {
        Received::Message(message) => spec_message_result(message),
        Received::Disconnected => WaitResult::Canceled,
        _ => WaitResult::Elapsed,
    }
}

/// What a blocking receive turns into: a message is decoded, and a channel
/// with no sender left reads as `Canceled`.
pub open spec fn spec_recv_result<O>(received: Received<Result<O, ()>>) -> WaitResult<O> {
    match received {
        Received::Message(message) => spec_message_result(message),
        _ => WaitResult::Canceled,
    }
}

/// What a receive that does not block turns into; `None` when nothing has
/// happened yet. (Such a receive never comes back `Timeout`.)
pub open spec fn spec_try_result<O>(received: Received<Result<O, ()>>) -> Option<WaitResult<O>> {
    match received {
        Received::Message(message) => Some(spec_message_result(message)),
        Received::Disconnected => Some(WaitResult::Canceled),
        _ => None,
    }
}

/// The message that carries `output`.
pub fn encode_output<O>(output: O) -> (message: Result<O, ()>)
    ensures
        message == output_message(output),
{
    Ok(output)
}

/// The message that asks the waiting side to stop.
pub fn encode_cancel<O>() -> (message: Result<O, ()>)
    ensures
        message == cancel_message::<O>(),
{
    Err(())
}

/// Decodes one message.
pub fn message_result<O>(message: Result<O, ()>) -> (r: WaitResult<O>)
    ensures
        r == spec_message_result(message),
{
    match message {
        Ok(output) => WaitResult::Output(output),
        Err(()) => WaitResult::Canceled,
    }
}

/// Decodes what a receive with a time limit came back with.
pub fn timeout_result<O>(received: Received<Result<O, ()>>) -> (r: WaitResult<O>)
    ensures
        r == spec_timeout_result(received),
{
    match received {
        Received::Message(message) => message_result(message),
        Received::Disconnected => WaitResult::Canceled,
        _ => WaitResult::Elapsed,
    }
}

/// Decodes what a blocking receive came back with.
pub fn recv_result<O>(received: Received<Result<O, ()>>) -> (r: WaitResult<O>)
    ensures
        r == spec_recv_result(received),
{
    match received {
        Received::Message(message) => message_result(message),
        _ => WaitResult::Canceled,
    }
}

/// Decodes what a receive that does not block came back with.
pub fn try_result<O>(received: Received<Result<O, ()>>) -> (r: Option<WaitResult<O>>)
    ensures
        r == spec_try_result(received),
{
    match received {
        Received::Message(message) => Some(message_result(message)),
        Received::Disconnected => Some(WaitResult::Canceled),
        _ => None,
    }
}

/// The sending end of a cancelable channel.
#[verifier::reject_recursive_types(O)]
pub struct RtSender<O> {
    outbox: Outbox<Result<O, ()>>,
}

impl<O> RtSender<O> {
    /// The receiving end that this sender feeds.
    pub closed spec fn peer(&self) -> Receiver<Result<O, ()>> {
        self.outbox.peer()
    }

    /// The messages sent through this sender, in order.
    pub closed spec fn sent(&self) -> Seq<Result<O, ()>> {
        self.outbox.sent()
    }

    /// Sends `output_message(output)`; a dead receiving end is ignored.
    pub fn send_output(&mut self, output: O)
        ensures
            final(self).sent() == old(self).sent().push(output_message(output)),
            final(self).peer() == old(self).peer(),
    {
        let message = encode_output(output);
        let _delivered = self.outbox.send(message);
    }

    /// Sends `cancel_message()`; a dead receiving end is ignored.
    pub fn cancel(&mut self)
        ensures
            final(self).sent() == old(self).sent().push(cancel_message::<O>()),
            final(self).peer() == old(self).peer(),
    {
        let message = encode_cancel();
        let _delivered = self.outbox.send(message);
    }

    /// Another sender that feeds the same receiving end, with nothing sent
    /// through it yet.
    pub fn duplicate(&self) -> (copy: RtSender<O>)
        ensures
            copy.peer() == self.peer(),
            copy.sent() == Seq::<Result<O, ()>>::empty(),
    {
        RtSender { outbox: self.outbox.duplicate() }
    }
}

impl<O> Clone for RtSender<O> {
    fn clone(&self) -> (copy: Self)
        ensures
            copy.peer() == self.peer(),
            copy.sent() == Seq::<Result<O, ()>>::empty(),
    {
        self.duplicate()
    }
}

/// The receiving end of a cancelable channel.
#[verifier::reject_recursive_types(O)]
pub struct RtWaiter<O> {
    inbox: Inbox<Result<O, ()>>,
}

impl<O> RtWaiter<O> {
    /// Which receiving end this is.
    pub closed spec fn id(&self) -> Receiver<Result<O, ()>> {
        self.inbox.id()
    }

    /// The receives made on this end, in order: the kind of each and its
    /// outcome.
    pub closed spec fn log(&self) -> Seq<(ReceiveKind, Received<Result<O, ()>>)> {
        self.inbox.log()
    }

    /// Waits at most `dur` for a message: an output gives `Output`, a
    /// cancel or a dead channel gives `Canceled`, and a wait that runs out
    /// gives `Elapsed`. The result is the decoding (`timeout_result`) of the
    /// receive timed by `dur` that this wait adds to the record.
    pub fn wait_for(&mut self, dur: Duration) -> (r: WaitResult<O>)
        ensures
            final(self).id() == old(self).id(),
            final(self).log() == old(self).log().push(final(self).log().last()),
            final(self).log().last().0 == ReceiveKind::Timed(dur),
            r == spec_timeout_result(final(self).log().last().1),
    {
        let received = self.inbox.recv_timeout(dur);
        timeout_result(received)
    }

    /// Waits for a message with no time limit: the result is the decoding
    /// (`recv_result`) of the blocking receive that this wait adds to the
    /// record; it is never `Elapsed`.
    pub fn wait_output(&mut self) -> (r: WaitResult<O>)
        ensures
            final(self).id() == old(self).id(),
            final(self).log() == old(self).log().push(final(self).log().last()),
            final(self).log().last().0 == ReceiveKind::Blocking,
            r == spec_recv_result(final(self).log().last().1),
            !(r is Elapsed),
    {
        let received = self.inbox.recv();
        recv_result(received)
    }

    /// Looks for a message without blocking: the result is the decoding of
    /// the outcome that this look adds to the record.
    pub fn try_wait_output(&mut self) -> (r: Option<WaitResult<O>>)
        ensures
            final(self).id() == old(self).id(),
            final(self).log() == old(self).log().push(final(self).log().last()),
            final(self).log().last().0 == ReceiveKind::Try,
            r == spec_try_result(final(self).log().last().1),
            !(r matches Some(WaitResult::Elapsed)),
    {
        let received = self.inbox.try_recv();
        try_result(received)
    }
}

/// A new cancelable channel, as its sending and its receiving end: the
/// sender feeds the waiter, and neither has been used.
pub fn rt_channel<O>() -> (ends: (RtSender<O>, RtWaiter<O>))
    ensures
        ends.0.peer() == ends.1.id(),
        ends.0.sent() == Seq::<Result<O, ()>>::empty(),
        ends.1.log() == Seq::<(ReceiveKind, Received<Result<O, ()>>)>::empty(),
{
    let (outbox, inbox) = open();
    (RtSender { outbox }, RtWaiter { inbox })
}

/// A message that carries an output is read back as that output.
pub proof fn lemma_output_read_back<O>(output: O)
    ensures
        spec_message_result(output_message(output)) == WaitResult::Output(output),
        spec_timeout_result(Received::Message(output_message(output)))
            == WaitResult::Output(output),
        spec_recv_result(Received::Message(output_message(output))) == WaitResult::Output(output),
        spec_try_result(Received::Message(output_message(output)))
            == Some(WaitResult::Output(output)),
{
}

/// A cancel is read back as `Canceled`, and so is a channel with no sender
/// left, whichever way the waiting side receives.
pub proof fn lemma_cancel_read_back<O>()
    ensures
        spec_message_result(cancel_message::<O>()) == WaitResult::<O>::Canceled,
        spec_timeout_result(Received::Message(cancel_message::<O>()))
            == WaitResult::<O>::Canceled,
        spec_timeout_result(Received::<Result<O, ()>>::Disconnected)
            == WaitResult::<O>::Canceled,
        spec_recv_result(Received::Message(cancel_message::<O>())) == WaitResult::<O>::Canceled,
        spec_recv_result(Received::<Result<O, ()>>::Disconnected) == WaitResult::<O>::Canceled,
        spec_try_result(Received::Message(cancel_message::<O>()))
            == Some(WaitResult::<O>::Canceled),
        spec_try_result(Received::<Result<O, ()>>::Disconnected)
            == Some(WaitResult::<O>::Canceled),
{
}

/// Only a receive that runs out of time yields `Elapsed`, and a receive
/// that found nothing yet yields `None`.
pub proof fn lemma_elapsed_only_on_timeout<O>(received: Received<Result<O, ()>>)
    requires
        !(received is Empty),
    ensures
        (spec_timeout_result(received) is Elapsed) <==> (received is Timeout),
        spec_try_result(Received::<Result<O, ()>>::Empty) is None,
{
}

/// What the helper thread of a running future holds on to: the thread
/// itself, the receiving end on which it reports, and the sending end with
/// which it is canceled.
#[verifier::reject_recursive_types(T)]
#[verifier::reject_recursive_types(O)]
pub struct FutureHandles<T, O, J> {
    pub thread: J,
    pub output: Inbox<T>,
    pub cancelable_sender: RtSender<O>,
}

/// A future that is ready once `dur` has passed since its first poll.
/// `J` is the handle of the helper thread that waits out the time.
#[verifier::reject_recursive_types(O)]
pub struct Sleep<O, J> {
    dur: Duration,
    handles: Option<FutureHandles<(), O, J>>,
    done: bool,
}

/// What the helper thread's report turns into: one is `Ready`, none yet
/// (or a helper thread that is gone) is `Pending`.
pub open spec fn spec_sleep_report(received: Received<()>) -> SleepPoll {
    match received {
        Received::Message(()) => SleepPoll::Ready,
        _ => SleepPoll::Pending,
    }
}

/// The helper thread's report is what a poll of a sleep answers: a report
/// is `Ready`, and no report yet, or a helper thread that is gone, is
/// `Pending`.
pub proof fn lemma_sleep_report_read_back()
    ensures
        spec_sleep_report(Received::Message(())) == SleepPoll::Ready,
        spec_sleep_report(Received::<()>::Empty) == SleepPoll::Pending,
        spec_sleep_report(Received::<()>::Disconnected) == SleepPoll::Pending,
{
}

/// Decodes the outcome of a look for the helper thread's report.
pub fn sleep_report(received: Received<()>) -> (r: SleepPoll)
    ensures
        r == spec_sleep_report(received),
{
    match received {
        Received::Message(()) => SleepPoll::Ready,
        _ => SleepPoll::Pending,
    }
}

/// What a poll of a `Sleep` asks of its caller.
#[derive(PartialEq, Eq, Structural, Clone, Copy)]
pub enum SleepPoll {
    /// First poll: start the helper thread, then hand its handles to `start`.
    Start,
    /// The time has not run out yet.
    Pending,
    /// The time has run out.
    Ready,
}

/// A sleep of `dur` that has not been polled yet.
pub fn sleep<O, J>(dur: Duration) -> (s: Sleep<O, J>)
    ensures
        s.spec_dur() == dur,
        s.spec_handles() is None,
        !s.spec_done(),
{
    Sleep { dur, handles: None, done: false }
}

impl<O, J> Sleep<O, J> {
    /// How long the sleep lasts.
    pub closed spec fn spec_dur(&self) -> Duration {
        self.dur
    }

    /// The helper thread's handles, once it has been started.
    pub closed spec fn spec_handles(&self) -> Option<FutureHandles<(), O, J>> {
        self.handles
    }

    /// Whether a poll has returned `Ready`.
    pub closed spec fn spec_done(&self) -> bool {
        self.done
    }

    /// Whether the sleep may be polled: not once a poll has returned
    /// `Ready` while its helper thread is held.
    pub open spec fn can_poll(&self) -> bool {
        !(self.spec_handles() is Some && self.spec_done())
    }

    /// What one `poll_step` does, from the sleep `before` to the sleep
    /// `after`, answering `r`. Before the helper thread is started it asks
    /// for it and changes nothing; afterwards it looks, without blocking,
    /// for the helper thread's report, answers with the decoding of what
    /// that look found, and is done exactly when the answer is `Ready`.
    pub open spec fn poll_outcome(before: Self, after: Self, r: SleepPoll) -> bool {
        &&& after.spec_dur() == before.spec_dur()
        &&& before.spec_handles() is None ==> r == SleepPoll::Start && after == before
        &&& before.spec_handles() is Some ==> ({
            let h = before.spec_handles()->0;
            let fh = after.spec_handles()->0;
            &&& after.spec_handles() is Some
            &&& fh.thread == h.thread
            &&& fh.cancelable_sender == h.cancelable_sender
            &&& fh.output.id() == h.output.id()
            &&& fh.output.log() == h.output.log().push(fh.output.log().last())
            &&& fh.output.log().last().0 == ReceiveKind::Try
            &&& r == spec_sleep_report(fh.output.log().last().1)
            &&& after.spec_done() == (r == SleepPoll::Ready)
        })
    }

    /// How long the sleep lasts.
    pub fn dur(&self) -> (d: Duration)
        ensures
            d == self.spec_dur(),
    {
        self.dur
    }

    /// Whether a poll has returned `Ready`.
    pub fn is_done(&self) -> (r: bool)
        ensures
            r == self.spec_done(),
    {
        self.done
    }

    /// The helper thread, once it has been started.
    pub fn thread(&self) -> (t: Option<&J>)
        ensures
            t == (match self.spec_handles() {
                Some(h) => Some(&h.thread),
                None => None,
            }),
    {
        match &self.handles {
            Some(h) => Some(&h.thread),
            None => None,
        }
    }

    /// Whether the sleep counts as elapsed, given whether the helper thread
    /// has finished: it does once a poll returned `Ready`, as long as no
    /// helper thread was started, and once the helper thread has finished.
    pub fn is_elapsed(&self, thread_finished: bool) -> (r: bool)
        ensures
            r == (self.spec_done() || self.spec_handles() is None || thread_finished),
    {
        self.done || match &self.handles {
            None => true,
            Some(_) => thread_finished,
        }
    }

    /// One poll. Before the helper thread is started it asks for it;
    /// afterwards it looks, without blocking, for the helper thread's
    /// report, and answers with the decoding (`sleep_report`) of the
    /// outcome that this look adds to the report channel's record. A poll
    /// after `Ready` is refused by the `requires`.
    pub fn poll_step(&mut self) -> (r: SleepPoll)
        requires
            old(self).can_poll(),
        ensures
            Self::poll_outcome(*old(self), *final(self), r),
    {
        let r = match &mut self.handles {
            Some(handles) => {
                let received = handles.output.try_recv();
                sleep_report(received)
            },
            None => SleepPoll::Start,
        };
        if r == SleepPoll::Ready {
            self.done = true;
        }
        r
    }

    /// Records the helper thread that was started after `SleepPoll::Start`.
    pub fn start(&mut self, handles: FutureHandles<(), O, J>)
        requires
            old(self).spec_handles() is None,
        ensures
            final(self).spec_handles() == Some(handles),
            final(self).spec_done() == old(self).spec_done(),
            final(self).spec_dur() == old(self).spec_dur(),
    {
        self.handles = Some(handles);
    }

    /// Takes the helper thread's handles out, leaving the sleep as if it
    /// had never been started.
    pub fn take_handles(&mut self) -> (handles: Option<FutureHandles<(), O, J>>)
        ensures
            handles == old(self).spec_handles(),
            final(self).spec_handles() is None,
            final(self).spec_done() == old(self).spec_done(),
            final(self).spec_dur() == old(self).spec_dur(),
    {
        self.handles.take()
    }

    /// Stops the helper thread, as dropping the sleep does: its report
    /// channel is closed, it is sent a cancel, and its handle is given back
    /// to be joined, with the cancel sender that carried the cancel.
    /// Nothing happens when it was never started.
    pub fn shut_down(&mut self) -> (stopped: Option<(J, RtSender<O>)>)
        ensures
            stopped is Some == old(self).spec_handles() is Some,
            old(self).spec_handles() is Some ==> ({
                let h = old(self).spec_handles()->0;
                let (thread, sender) = stopped->0;
                &&& thread == h.thread
                &&& sender.peer() == h.cancelable_sender.peer()
                &&& sender.sent() == h.cancelable_sender.sent().push(cancel_message::<O>())
            }),
            final(self).spec_handles() is None,
            final(self).spec_done() == old(self).spec_done(),
            final(self).spec_dur() == old(self).spec_dur(),
    {
        match self.take_handles() {
            Some(handles) => Some(handles.close()),
            None => None,
        }
    }
}

impl<T, O, J> FutureHandles<T, O, J> {
    /// Closes the report channel, then sends the helper thread a cancel;
    /// gives back the thread's handle and the sender that carried the
    /// cancel.
    pub fn close(self) -> (closed: (J, RtSender<O>))
        ensures
            closed.0 == self.thread,
            closed.1.peer() == self.cancelable_sender.peer(),
            closed.1.sent() == self.cancelable_sender.sent().push(cancel_message::<O>()),
    {
        let FutureHandles { thread, output, cancelable_sender } = self;
        {
            // closes the report channel before the cancel goes out
            let _report_channel = output;
        }
        let mut sender = cancelable_sender;
        sender.cancel();
        (thread, sender)
    }
}

/// A sleep is ready once: after a poll that answered `Ready` the sleep is
/// done with its helper thread still held, so `can_poll`, which
/// `poll_step` requires, no longer holds (`start` requires a sleep with no
/// helper thread, so only taking the handles out, as dropping the sleep
/// does, changes that). A poll that answers `Start` or `Pending` leaves the
/// sleep pollable.
pub proof fn lemma_ready_once<O, J>(before: Sleep<O, J>, after: Sleep<O, J>, r: SleepPoll)
    requires
        before.can_poll(),
        Sleep::poll_outcome(before, after, r),
    ensures
        r == SleepPoll::Ready ==> after.spec_done() && after.spec_handles() is Some && !after.can_poll(),
        r != SleepPoll::Ready ==> after.can_poll(),
{
}

/// The helper thread's last step: when its wait ran out it reports on
/// `notify`, and the result is that send's outcome (whether the report was
/// delivered), on which the future's waker is woken; a canceled wait
/// reports nothing and wakes no one. The helper
/// thread's channel never carries an output, which the `requires` states.
pub fn report_elapsed<O>(result: WaitResult<O>, notify: &mut Outbox<()>) -> (wake: bool)
    requires
        !(result is Output),
    ensures
        final(notify).peer() == old(notify).peer(),
        result is Elapsed ==> final(notify).sent() == old(notify).sent().push(())
            && final(notify).outcomes() == old(notify).outcomes().push(wake),
        result is Canceled ==> !wake && final(notify).sent() == old(notify).sent()
            && final(notify).outcomes() == old(notify).outcomes(),
        wake ==> result is Elapsed,
{
    match result {
        WaitResult::Elapsed => notify.send(()),
        _ => false,
    }
}

} // verus!
