//! Spawning with a choice: a future is either polled once on the spot,
//! which may finish it without a spawn, or handed to the tokio runtime at
//! once. The handle that comes back is either a finished output or tokio's
//! join handle.

use crate::runtime::random_flag;
use tokio::task::{JoinError, JoinHandle};
use vstd::prelude::*;

verus! {

#[verifier::external_type_specification]
#[verifier::external_body]
#[verifier::reject_recursive_types(T)]
pub struct ExJoinHandle<T>(JoinHandle<T>);

#[verifier::external_type_specification]
#[verifier::external_body]
pub struct ExJoinError(JoinError);

/// Where a spawned future's output comes from.
#[verifier::reject_recursive_types(T)]
pub enum SpawnInner<T> {
    /// From the tokio task that runs the future.
    Spawned(JoinHandle<T>),
    /// Finished on the spot; `None` once the output was taken.
    Ready(Option<T>),
}

/// A handle on a future that was either finished on the spot or spawned.
#[verifier::reject_recursive_types(T)]
pub struct SpawnHandle<T>(SpawnInner<T>);

impl<T> SpawnHandle<T> {
    /// Where the output comes from.
    pub closed spec fn inner(&self) -> SpawnInner<T> {
        self.0
    }

    /// The handle of an output that is already there.
    pub fn wrap(output: T) -> (h: Self)
        ensures
            h.inner() == SpawnInner::Ready(Some(output)),
    {
        SpawnHandle(SpawnInner::Ready(Some(output)))
    }

    /// The handle of a spawned task.
    pub fn spawned(handle: JoinHandle<T>) -> (h: Self)
        ensures
            h.inner() == SpawnInner::Spawned(handle),
    {
        SpawnHandle(SpawnInner::Spawned(handle))
    }

    /// The handle with the given source.
    pub fn from_inner(inner: SpawnInner<T>) -> (h: Self)
        ensures
            h.inner() == inner,
    {
        SpawnHandle(inner)
    }

    /// Whether the future was spawned.
    pub fn is_spawned(&self) -> (r: bool)
        ensures
            r == (self.inner() is Spawned),
    {
        match &self.0 {
            SpawnInner::Spawned(_) => true,
            _ => false,
        }
    }

    /// Whether the future finished on the spot.
    pub fn is_ready(&self) -> (r: bool)
        ensures
            r == (self.inner() is Ready),
    {
        match &self.0 {
            SpawnInner::Ready(_) => true,
            _ => false,
        }
    }

    /// Whether an output is there to be taken.
    pub fn has_output(&self) -> (r: bool)
        ensures
            r == (self.inner() matches SpawnInner::Ready(Some(_))),
    {
        match &self.0 {
            SpawnInner::Ready(Some(_)) => true,
            _ => false,
        }
    }

    /// The join handle of a spawned future.
    pub fn unwrap_join_handle(self) -> (handle: JoinHandle<T>)
        requires
            self.inner() is Spawned,
        ensures
            self.inner() == SpawnInner::Spawned(handle),
    {
        match self.0 {
            SpawnInner::Spawned(handle) => handle,
            SpawnInner::Ready(_) => {
                proof {
                    assert(false);
                }
                vstd::pervasive::unreached()
            },
        }
    }

    /// The output of a future that finished on the spot, if not taken yet.
    pub fn unwrap_output(self) -> (output: T)
        requires
            self.inner() matches SpawnInner::Ready(Some(_)),
        ensures
            self.inner() == SpawnInner::Ready(Some(output)),
    {
        match self.0 {
            SpawnInner::Ready(Some(output)) => output,
            _ => {
                proof {
                    assert(false);
                }
                vstd::pervasive::unreached()
            },
        }
    }

    /// Awaiting a handle whose output is there: takes the output out. A
    /// second await of it is refused by the `requires`.
    pub fn take_ready(&mut self) -> (output: T)
        requires
            old(self).inner() matches SpawnInner::Ready(Some(_)),
        ensures
            old(self).inner() == SpawnInner::Ready(Some(output)),
            final(self).inner() == SpawnInner::<T>::Ready(None),
    {
        match &mut self.0 {
            SpawnInner::Ready(o) => o.take().unwrap(),
            SpawnInner::Spawned(_) => {
                proof {
                    assert(false);
                }
                vstd::pervasive::unreached()
            },
        }
    }

    /// The join handle of a spawned future, to be polled in place.
    pub fn join_handle_mut(&mut self) -> (handle: &mut JoinHandle<T>)
        requires
            old(self).inner() is Spawned,
        ensures
            old(self).inner() == SpawnInner::Spawned(*handle),
            final(self).inner() == SpawnInner::Spawned(*final(handle)),
    {
        match &mut self.0 {
            SpawnInner::Spawned(handle) => handle,
            SpawnInner::Ready(_) => {
                proof {
                    assert(false);
                }
                vstd::pervasive::unreached()
            },
        }
    }
}

/// A future waiting to be spawned, and whether it is first polled once on
/// the spot.
pub struct SpawnFairness<F> {
    future: Option<F>,
    poll_immediate: bool,
}

impl<F> SpawnFairness<F> {
    /// The future, until it is taken.
    pub closed spec fn spec_future(&self) -> Option<F> {
        self.future
    }

    /// Whether the future is first polled on the spot.
    pub closed spec fn spec_poll_immediate(&self) -> bool {
        self.poll_immediate
    }

    /// Whether the wrapper may be polled: only while it still holds the
    /// future, that is before its one poll.
    pub open spec fn can_poll(&self) -> bool {
        self.spec_future() is Some
    }

    /// Wraps `future`; `poll_immediate` says whether it is first polled on
    /// the spot.
    pub fn new(future: F, poll_immediate: bool) -> (s: Self)
        ensures
            s.spec_future() == Some(future),
            s.spec_poll_immediate() == poll_immediate,
    {
        SpawnFairness { future: Some(future), poll_immediate }
    }

    /// Wraps `future` to be spawned at once.
    pub fn spawn(future: F) -> (s: Self)
        ensures
            s.spec_future() == Some(future),
            !s.spec_poll_immediate(),
    {
        Self::new(future, false)
    }

    /// Wraps `future` to be polled on the spot first.
    pub fn poll_spawn(future: F) -> (s: Self)
        ensures
            s.spec_future() == Some(future),
            s.spec_poll_immediate(),
    {
        Self::new(future, true)
    }

    /// Whether the future is first polled on the spot.
    pub fn poll_immediate(&self) -> (r: bool)
        ensures
            r == self.spec_poll_immediate(),
    {
        self.poll_immediate
    }

    /// Whether the future has not been taken yet.
    pub fn has_future(&self) -> (r: bool)
        ensures
            r == (self.spec_future() is Some),
    {
        self.future.is_some()
    }

    /// Takes the future out, as the one poll of a `SpawnFairness` does; a
    /// second poll is refused by the `requires`.
    pub fn take_future(&mut self) -> (future: F)
        requires
            old(self).can_poll(),
        ensures
            old(self).spec_future() == Some(future),
            final(self).spec_future() is None,
            !final(self).can_poll(),
            final(self).spec_poll_immediate() == old(self).spec_poll_immediate(),
    {
        self.future.take().unwrap()
    }
}

/// What the one poll of a `SpawnFairness` does first.
pub enum FairStep<F> {
    /// Poll the future once on the spot, then finish with
    /// `after_first_poll`.
    PollFirst(F),
    /// Hand the future to the tokio runtime at once.
    SpawnNow(F),
}

impl<F> SpawnFairness<F> {
    /// What `first_step` does, from the wrapper `before` to the wrapper
    /// `after`, answering `step`: the future is taken out, and handed back
    /// to be polled on the spot first when so chosen, or spawned at once.
    pub open spec fn first_step_outcome(before: Self, after: Self, step: FairStep<F>) -> bool {
        &&& after.spec_future() is None
        &&& after.spec_poll_immediate() == before.spec_poll_immediate()
        &&& before.spec_poll_immediate() ==> step == FairStep::PollFirst(before.spec_future()->0)
        &&& !before.spec_poll_immediate() ==> step == FairStep::SpawnNow(before.spec_future()->0)
    }

    /// The first step of the one poll: the future is taken out, to be
    /// polled on the spot first when so chosen, or spawned at once. A
    /// second poll is refused by the `requires`.
    pub fn first_step(&mut self) -> (step: FairStep<F>)
        requires
            old(self).can_poll(),
        ensures
            Self::first_step_outcome(*old(self), *final(self), step),
    {
        let future = self.take_future();
        if self.poll_immediate {
            FairStep::PollFirst(future)
        } else {
            FairStep::SpawnNow(future)
        }
    }
}

/// A `SpawnFairness` is polled once: its poll takes the future out, after
/// which `can_poll`, which `first_step` and `take_future` require, no
/// longer holds, and no method puts a future back.
pub proof fn lemma_polled_once<F>(before: SpawnFairness<F>, after: SpawnFairness<F>, step: FairStep<F>)
    requires
        before.can_poll(),
        SpawnFairness::first_step_outcome(before, after, step),
    ensures
        !after.can_poll(),
{
}

/// What follows the poll on the spot (`None` for pending): a finished
/// future gives the handle of its output; a pending one is to be spawned
/// (`None`).
pub fn after_first_poll<T>(polled: Option<T>) -> (handle: Option<SpawnHandle<T>>)
    ensures
        polled matches Some(o) ==> handle matches Some(h) && h.inner() == SpawnInner::Ready(Some(o)),
        polled is None ==> handle is None,
{
    match polled {
        Some(o) => Some(SpawnHandle::wrap(o)),
        None => None,
    }
}

/// Spawns `future` after polling it once on the spot.
pub fn spawn_immediate<F>(future: F) -> (s: SpawnFairness<F>)
    ensures
        s.spec_future() == Some(future),
        s.spec_poll_immediate(),
{
    SpawnFairness::poll_spawn(future)
}

/// Spawns `future` at once.
pub fn spawn_spawn<F>(future: F) -> (s: SpawnFairness<F>)
    ensures
        s.spec_future() == Some(future),
        !s.spec_poll_immediate(),
{
    SpawnFairness::spawn(future)
}

/// Spawns `future` after a coin toss decides whether it is polled on the
/// spot first.
pub fn spawn_uniform<F>(future: F) -> (s: SpawnFairness<F>)
    ensures
        s.spec_future() == Some(future),
{
    SpawnFairness::new(future, random_flag())
}

} // verus!
