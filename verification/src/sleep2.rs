//! A second sleep future, whose state is shared with its helper thread.
//!
//! The state machine below is what both sides change under a lock: the
//! future when it is polled or dropped, the helper thread when the time
//! has run out. Each transition is stated as a spec function, and the laws
//! at the end say how the transitions combine.

use crate::channel::{open, Inbox, Outbox, ReceiveKind, Received};
use std::sync::mpsc::Receiver;
use std::time::Duration;
use vstd::prelude::*;

verus! {

/// The sending end of a cancel channel; dropping it cancels the wait.
/// Nothing is ever sent on it (its field is private and unused): the
/// channel only reports that its sending end is gone.
pub struct SleepCanceler(Outbox<()>);

/// The helper thread's side: how long to wait, and the cancel channel.
pub struct SleepWaiter {
    dur: Duration,
    recv: Inbox<()>,
}

/// Whether a wait on a cancel channel ran its full time: a time-out is,
/// a channel whose sending end is gone (canceled) is not. (A message
/// cannot arrive, as none is ever sent; it would not count as a time-out.)
pub open spec fn spec_timer_fired(received: Received<()>) -> bool {
    received is Timeout
}

/// Only a wait that ran its full time fires the timer: a wait cut short
/// because the cancel end was dropped, or by a message, does not.
pub proof fn lemma_timer_fires_only_on_timeout()
    ensures
        spec_timer_fired(Received::<()>::Timeout),
        !spec_timer_fired(Received::<()>::Disconnected),
        !spec_timer_fired(Received::Message(())),
{
}

/// Decodes what a wait on a cancel channel came back with.
pub fn timer_fired(received: Received<()>) -> (fired: bool)
    ensures
        fired == spec_timer_fired(received),
{
    match received {
        Received::Timeout => true,
        _ => false,
    }
}

impl SleepWaiter {
    /// How long the wait lasts.
    pub closed spec fn spec_dur(&self) -> Duration {
        self.dur
    }

    /// Which receiving end the wait is on.
    pub closed spec fn spec_id(&self) -> Receiver<()> {
        self.recv.id()
    }

    /// The outcomes of the waits, in order.
    pub closed spec fn spec_log(&self) -> Seq<(ReceiveKind, Received<()>)> {
        self.recv.log()
    }

    /// Waits out the time unless canceled first; `true` when the time ran
    /// out. The result is the decoding (`timer_fired`) of the receive timed
    /// by the waiter's duration that this wait adds to the record.
    pub fn wait(&mut self) -> (fired: bool)
        ensures
            final(self).spec_dur() == old(self).spec_dur(),
            final(self).spec_id() == old(self).spec_id(),
            final(self).spec_log() == old(self).spec_log().push(final(self).spec_log().last()),
            final(self).spec_log().last().0 == ReceiveKind::Timed(old(self).spec_dur()),
            fired == spec_timer_fired(final(self).spec_log().last().1),
    {
        let received = self.recv.recv_timeout(self.dur);
        timer_fired(received)
    }
}

impl SleepCanceler {
    /// The receiving end that this canceler's channel leads to.
    pub closed spec fn spec_peer(&self) -> Receiver<()> {
        self.0.peer()
    }
}

/// A cancel channel for a wait of `dur`.
pub fn sleep_channel(dur: Duration) -> (r: (SleepCanceler, SleepWaiter))
    ensures
        r.1.spec_dur() == dur,
        r.0.spec_peer() == r.1.spec_id(),
        r.1.spec_log() == Seq::<(ReceiveKind, Received<()>)>::empty(),
{
    let (send, recv) = open();
    (SleepCanceler(send), SleepWaiter { dur, recv })
}

/// What a started sleep holds: the waker of the task that awaits it, the
/// helper thread `J`, and the cancel channel's sending end.
pub struct SleepHandles<W, J> {
    pub waker: Option<W>,
    pub thread: Option<J>,
    pub canceler: SleepCanceler,
}

/// The shared state of a sleep.
pub enum SleepState<W, J> {
    /// Not polled yet.
    Init,
    /// Polled, the helper thread is waiting.
    Start(SleepHandles<W, J>),
    /// Dropped before the time ran out.
    Canceled,
    /// The time ran out; the helper thread's handle until someone joins it.
    Elapsed(Option<J>),
}

/// What a poll of the shared state asks of its caller.
pub enum SleepPoll2<W> {
    /// The time has run out.
    Ready,
    /// Not yet; the stored waker was refreshed.
    Pending,
    /// First poll: start the helper thread, then store `SleepState::start`
    /// with the waker given back here.
    Start(W),
}

/// A started sleep holds both its waker and its helper thread.
pub open spec fn spec_wf<W, J>(s: SleepState<W, J>) -> bool {
    s matches SleepState::Start(h) ==> h.waker is Some && h.thread is Some
}

/// The state after a cancel, and the helper thread to be joined.
pub open spec fn spec_cancel<W, J>(s: SleepState<W, J>) -> (SleepState<W, J>, Option<J>) {
    match s {
        SleepState::Start(h) => (SleepState::Canceled, h.thread),
        SleepState::Elapsed(t) => (SleepState::Elapsed(None), t),
        _ => (s, None),
    }
}

/// The state after the time ran out, and the waker to be woken.
pub open spec fn spec_elapsed<W, J>(s: SleepState<W, J>) -> (SleepState<W, J>, Option<W>) {
    match s {
        SleepState::Start(h) => (SleepState::Elapsed(h.thread), h.waker),
        _ => (s, None),
    }
}

/// The state after a poll with `waker`, and what the poll asks for.
pub open spec fn spec_poll<W, J>(s: SleepState<W, J>, waker: W) -> (SleepState<W, J>, SleepPoll2<W>) {
    match s {
        SleepState::Elapsed(_) => (s, SleepPoll2::Ready),
        SleepState::Start(h) => (
            SleepState::Start(SleepHandles {
                waker: if h.waker is Some { Some(waker) } else { None },
                ..h
            }),
            SleepPoll2::Pending,
        ),
        _ => (s, SleepPoll2::Start(waker)),
    }
}

impl<W, J> SleepState<W, J> {
    /// A state that is not polled yet.
    pub fn init() -> (s: Self)
        ensures
            s is Init,
    {
        SleepState::Init
    }

    /// Whether the time has run out.
    pub fn is_elapsed(&self) -> (r: bool)
        ensures
            r == (*self is Elapsed),
    {
        match self {
            SleepState::Elapsed(_) => true,
            _ => false,
        }
    }

    /// The state of a sleep whose helper thread was just started.
    pub fn start(canceler: SleepCanceler, waker: W, thread: J) -> (s: Self)
        ensures
            s == SleepState::Start(SleepHandles { waker: Some(waker), thread: Some(thread), canceler }),
            spec_wf(s),
    {
        SleepState::Start(SleepHandles { waker: Some(waker), thread: Some(thread), canceler })
    }

    /// Cancels the sleep, as dropping it does: a running wait becomes
    /// `Canceled` (its cancel channel is dropped with it), and the helper
    /// thread, if one is still held, is given back to be joined.
    pub fn cancel(&mut self) -> (thread: Option<J>)
        ensures
            (*final(self), thread) == spec_cancel(*old(self)),
            spec_wf(*old(self)) ==> spec_wf(*final(self)),
    {
        let mut thread = None;
        if let SleepState::Start(handles) = self {
            thread = handles.thread.take();
            *self = SleepState::Canceled;
        } else if let SleepState::Elapsed(thread_handle) = self {
            thread = thread_handle.take();
        }
        thread
    }

    /// Records that the time ran out: a running wait becomes `Elapsed`,
    /// keeping the helper thread, and its waker is given back to be woken.
    pub fn elapsed(&mut self) -> (waker: Option<W>)
        ensures
            (*final(self), waker) == spec_elapsed(*old(self)),
            spec_wf(*old(self)) ==> spec_wf(*final(self)),
            spec_wf(*old(self)) && *old(self) is Start ==> waker is Some,
    {
        if let SleepState::Start(handles) = self {
            let thread = handles.thread.take();
            let waker = handles.waker.take();
            *self = SleepState::Elapsed(thread);
            waker
        } else {
            None
        }
    }

    /// One poll with the task's current `waker`. A canceled sleep is never
    /// polled, which the `requires` states.
    pub fn poll_step(&mut self, waker: W) -> (r: SleepPoll2<W>)
        requires
            !(*old(self) is Canceled),
        ensures
            (*final(self), r) == spec_poll(*old(self), waker),
            spec_wf(*old(self)) ==> spec_wf(*final(self)),
    {
        match self {
            SleepState::Elapsed(_) => SleepPoll2::Ready,
            SleepState::Start(handles) => {
                if handles.waker.is_some() {
                    handles.waker = Some(waker);
                }
                SleepPoll2::Pending
            },
            _ => SleepPoll2::Start(waker),
        }
    }
}

/// A canceled sleep never wakes its task: once canceled, the time running
/// out changes nothing and hands out no waker.
pub proof fn lemma_cancel_then_elapsed<W, J>(s: SleepState<W, J>)
    ensures
        spec_elapsed(spec_cancel(s).0) == (spec_cancel(s).0, None::<W>),
{
}

/// Once elapsed, a sleep stays elapsed: neither a cancel, nor another
/// report that the time ran out, nor a poll leaves the `Elapsed` state, and
/// every poll of it is `Ready`.
pub proof fn lemma_elapsed_is_final<W, J>(s: SleepState<W, J>, waker: W)
    requires
        s is Elapsed,
    ensures
        spec_cancel(s).0 is Elapsed,
        spec_elapsed(s).0 == s,
        spec_poll(s, waker).0 == s,
        spec_poll(s, waker).1 is Ready,
{
}

/// The helper thread is given back at most once: after a first cancel, a
/// second one gives nothing back.
pub proof fn lemma_thread_joined_once<W, J>(s: SleepState<W, J>)
    ensures
        spec_cancel(spec_cancel(s).0).1 is None,
{
}

/// A running sleep whose time runs out wakes its task, keeps its helper
/// thread for the later cancel, and from then on every poll is `Ready`.
pub proof fn lemma_start_then_elapsed<W, J>(canceler: SleepCanceler, waker: W, thread: J, next: W)
    ensures
        ({
            let s = SleepState::Start(SleepHandles { waker: Some(waker), thread: Some(thread), canceler });
            let (after, woken) = spec_elapsed(s);
            &&& woken == Some(waker)
            &&& after == SleepState::<W, J>::Elapsed(Some(thread))
            &&& spec_poll(after, next).1 is Ready
            &&& spec_cancel(after).1 == Some(thread)
        }),
{
}

} // verus!
