//! The two ends of a `std::sync::mpsc` channel, with their ghost records.
//! The records are written only here, by the trusted wrappers that make the
//! std calls, so the verified code above can read them but not rewrite
//! them.

use super::{ReceiveKind, Received};
use std::sync::mpsc::{Receiver, RecvTimeoutError, Sender, TryRecvError};
use std::time::Duration;
use vstd::prelude::*;

verus! {

#[verifier::external_type_specification]
#[verifier::external_body]
#[verifier::reject_recursive_types(T)]
pub struct ExSender<T>(Sender<T>);

#[verifier::external_type_specification]
#[verifier::external_body]
#[verifier::reject_recursive_types(T)]
pub struct ExReceiver<T>(Receiver<T>);

/// The sending end of a channel, with the receiving end that it feeds, the
/// messages sent through it, and whether each send found the receiving end
/// alive.
#[verifier::reject_recursive_types(T)]
pub struct Outbox<T> {
    sender: Sender<T>,
    peer: Ghost<Receiver<T>>,
    sent: Ghost<Seq<T>>,
    outcomes: Ghost<Seq<bool>>,
}

/// The receiving end of a channel, with the receives made on it: the kind
/// of each and its outcome.
#[verifier::reject_recursive_types(T)]
pub struct Inbox<T> {
    receiver: Receiver<T>,
    log: Ghost<Seq<(ReceiveKind, Received<T>)>>,
}

impl<T> Outbox<T> {
    /// The receiving end that this sending end feeds.
    pub closed spec fn peer(&self) -> Receiver<T> {
        self.peer@
    }

    /// The messages sent through this sending end, in order.
    pub closed spec fn sent(&self) -> Seq<T> {
        self.sent@
    }

    /// Whether each send through this sending end found the receiving end
    /// alive, in order.
    pub closed spec fn outcomes(&self) -> Seq<bool> {
        self.outcomes@
    }
}

impl<T> Inbox<T> {
    /// Which receiving end this is.
    pub closed spec fn id(&self) -> Receiver<T> {
        self.receiver
    }

    /// The receives made on this end, in order: the kind of each and its
    /// outcome.
    pub closed spec fn log(&self) -> Seq<(ReceiveKind, Received<T>)> {
        self.log@
    }
}

/// `std::sync::mpsc::channel`: a new channel, as its sending end, which
/// feeds the receiving end, and its receiving end; no record has an entry.
#[verifier::external_body]
pub(crate) fn open_channel<T>() -> (ends: (Outbox<T>, Inbox<T>))
    ensures
        ends.0.peer() == ends.1.id(),
        ends.0.sent() == Seq::<T>::empty(),
        ends.0.outcomes() == Seq::<bool>::empty(),
        ends.1.log() == Seq::<(ReceiveKind, Received<T>)>::empty(),
{
    let (sender, receiver) = std::sync::mpsc::channel();
    let outbox = Outbox { sender, peer: Ghost(receiver), sent: Ghost(Seq::empty()), outcomes: Ghost(Seq::empty()) };
    (outbox, Inbox { receiver, log: Ghost(Seq::empty()) })
}

/// `Sender::send`: hands `message` to the channel; the outbox's record gets
/// `message` appended, and its record of outcomes gets the result, which
/// tells whether the receiving end was still alive (`Ok` from std). Which
/// result comes back is not stated, as that depends on another thread.
#[verifier::external_body]
pub(crate) fn post<T>(outbox: &mut Outbox<T>, message: T) -> (delivered: bool)
    ensures
        final(outbox).sent() == old(outbox).sent().push(message),
        final(outbox).outcomes() == old(outbox).outcomes().push(delivered),
        final(outbox).peer() == old(outbox).peer(),
{
    outbox.sender.send(message).is_ok()
}

/// `Sender::clone`: another sending end of the same channel, so it feeds
/// the same receiving end; nothing has been sent through it yet.
#[verifier::external_body]
pub(crate) fn clone_sender<T>(outbox: &Outbox<T>) -> (copy: Outbox<T>)
    ensures
        copy.peer() == outbox.peer(),
        copy.sent() == Seq::<T>::empty(),
        copy.outcomes() == Seq::<bool>::empty(),
{
    Outbox {
        sender: outbox.sender.clone(),
        peer: Ghost(outbox.peer@),
        sent: Ghost(Seq::empty()),
        outcomes: Ghost(Seq::empty()),
    }
}

/// `Receiver::recv`: blocks until a message arrives or every sender is
/// gone; the receive, as blocking, and its outcome are appended to the
/// inbox's record. Which of the two comes back is not stated.
#[verifier::external_body]
pub(crate) fn receive<T>(inbox: &mut Inbox<T>) -> (r: Received<T>)
    ensures
        r is Message || r is Disconnected,
        final(inbox).log() == old(inbox).log().push((ReceiveKind::Blocking, r)),
        final(inbox).id() == old(inbox).id(),
{
    match inbox.receiver.recv() {
        Ok(message) => Received::Message(message),
        Err(_) => Received::Disconnected,
    }
}

/// `Receiver::recv_timeout`: like `receive`, but gives up after `dur`; the
/// record gets a receive timed by `dur`. Which outcome comes back is not
/// stated.
#[verifier::external_body]
pub(crate) fn receive_timeout<T>(inbox: &mut Inbox<T>, dur: Duration) -> (r: Received<T>)
    ensures
        !(r is Empty),
        final(inbox).log() == old(inbox).log().push((ReceiveKind::Timed(dur), r)),
        final(inbox).id() == old(inbox).id(),
{
    match inbox.receiver.recv_timeout(dur) {
        Ok(message) => Received::Message(message),
        Err(RecvTimeoutError::Timeout) => Received::Timeout,
        Err(RecvTimeoutError::Disconnected) => Received::Disconnected,
    }
}

/// `Receiver::try_recv`: takes a waiting message without blocking; the
/// record gets a look that does not wait. Which outcome comes back is not
/// stated.
#[verifier::external_body]
pub(crate) fn try_receive<T>(inbox: &mut Inbox<T>) -> (r: Received<T>)
    ensures
        !(r is Timeout),
        final(inbox).log() == old(inbox).log().push((ReceiveKind::Try, r)),
        final(inbox).id() == old(inbox).id(),
{
    match inbox.receiver.try_recv() {
        Ok(message) => Received::Message(message),
        Err(TryRecvError::Empty) => Received::Empty,
        Err(TryRecvError::Disconnected) => Received::Disconnected,
    }
}

} // verus!
