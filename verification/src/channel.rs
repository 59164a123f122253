//! The message channels that connect a waiting thread with the code that
//! feeds it: a thin, trusted layer over `std::sync::mpsc`.
//!
//! Each end carries a ghost record. A sending end (`Outbox`) knows which
//! receiving end it feeds, the list of messages handed to `send` through
//! it, and whether each send found the receiving end alive. A receiving end
//! (`Inbox`) keeps the kind and the outcome of each receive made on it.
//! What a receive returns depends on what other threads sent and when, so
//! no wrapper promises a particular outcome; the record lets the verified
//! code above say exactly what it did with the one that came. The records
//! are kept in `ends`, where only the wrappers that make the std calls
//! write them.

mod ends;

pub use self::ends::{Inbox, Outbox};
use self::ends::{clone_sender, open_channel, post, receive, receive_timeout, try_receive};
use std::time::Duration;
use vstd::prelude::*;

verus! {

/// What a receive came back with.
pub enum Received<T> {
    /// A message.
    Message(T),
    /// No message was waiting, but a sender is still alive (a receive that
    /// does not block).
    Empty,
    /// The time ran out with no message (a receive with a time limit).
    Timeout,
    /// Every sender is gone and no message is left.
    Disconnected,
}

/// Which kind of receive was made.
pub enum ReceiveKind {
    /// A receive that waits until a message comes or every sender is gone.
    Blocking,
    /// A receive that waits at most the given time.
    Timed(Duration),
    /// A look that does not wait.
    Try,
}

/// A new channel, as its sending and its receiving end: the sending end
/// feeds the receiving end, and neither has been used.
pub fn open<T>() -> (ends: (Outbox<T>, Inbox<T>))
    ensures
        ends.0.peer() == ends.1.id(),
        ends.0.sent() == Seq::<T>::empty(),
        ends.0.outcomes() == Seq::<bool>::empty(),
        ends.1.log() == Seq::<(ReceiveKind, Received<T>)>::empty(),
{
    open_channel()
}

impl<T> Outbox<T> {
    /// Sends `message`; the result, which is added to the record of
    /// outcomes, tells whether the receiving end was still alive.
    pub fn send(&mut self, message: T) -> (delivered: bool)
        ensures
            final(self).sent() == old(self).sent().push(message),
            final(self).outcomes() == old(self).outcomes().push(delivered),
            final(self).peer() == old(self).peer(),
    {
        post(self, message)
    }

    /// Another sending end that feeds the same receiving end, with nothing
    /// sent through it yet.
    pub fn duplicate(&self) -> (copy: Outbox<T>)
        ensures
            copy.peer() == self.peer(),
            copy.sent() == Seq::<T>::empty(),
            copy.outcomes() == Seq::<bool>::empty(),
    {
        clone_sender(self)
    }
}

impl<T> Inbox<T> {
    /// Waits for a message or for every sender to be gone; the outcome is
    /// the one added to the record.
    pub fn recv(&mut self) -> (r: Received<T>)
        ensures
            r is Message || r is Disconnected,
            final(self).log() == old(self).log().push((ReceiveKind::Blocking, r)),
            final(self).id() == old(self).id(),
    {
        receive(self)
    }

    /// Like `recv`, but gives up after `dur`.
    pub fn recv_timeout(&mut self, dur: Duration) -> (r: Received<T>)
        ensures
            !(r is Empty),
            final(self).log() == old(self).log().push((ReceiveKind::Timed(dur), r)),
            final(self).id() == old(self).id(),
    {
        receive_timeout(self, dur)
    }

    /// Takes a waiting message without blocking.
    pub fn try_recv(&mut self) -> (r: Received<T>)
        ensures
            !(r is Timeout),
            final(self).log() == old(self).log().push((ReceiveKind::Try, r)),
            final(self).id() == old(self).id(),
    {
        try_receive(self)
    }
}

} // verus!
