//! Setting a slot for a scope: the slot gets a new value, and a guard keeps
//! the old one until it is put back. This is how the runtime marks the
//! thread it runs on, and refuses to start a second runtime there.

use vstd::prelude::*;

verus! {

/// The value that a slot held before it was set for a scope.
pub struct SetGuard<T> {
    old: T,
}

impl<T> SetGuard<T> {
    /// The value to be put back.
    pub closed spec fn spec_old(&self) -> T {
        self.old
    }

    /// Sets `slot` to `value`, keeping its old value in the guard.
    pub fn new(slot: &mut T, value: T) -> (guard: Self)
        ensures
            *final(slot) == value,
            guard.spec_old() == *old(slot),
    {
        let mut old = value;
        std::mem::swap(slot, &mut old);
        SetGuard { old }
    }

    /// Puts the old value back into `slot`, as dropping the guard does.
    pub fn restore(self, slot: &mut T)
        ensures
            *final(slot) == self.spec_old(),
    {
        *slot = self.old;
    }
}

/// Sets `slot` to `value` for a scope.
pub fn scoped_set<T>(slot: &mut T, value: T) -> (guard: SetGuard<T>)
    ensures
        *final(slot) == value,
        guard.spec_old() == *old(slot),
{
    SetGuard::new(slot, value)
}

/// Sets `slot` to `value` for a scope when `predicate` holds of its current
/// value; otherwise leaves it alone and gives no guard.
pub fn scoped_set_if<T, P: FnOnce(&T) -> bool>(slot: &mut T, value: T, predicate: P) -> (guard: Option<SetGuard<T>>)
    requires
        predicate.requires((&*old(slot),)),
    ensures
        exists|allowed: bool| {
            &&& #[trigger] predicate.ensures((&*old(slot),), allowed)
            &&& allowed ==> (guard matches Some(g) && g.spec_old() == *old(slot) && *final(slot) == value)
            &&& !allowed ==> guard is None && *final(slot) == *old(slot)
        },
{
    let allowed = predicate(&*slot);
    if allowed {
        Some(scoped_set(slot, value))
    } else {
        None
    }
}

/// What setting an optional slot for a scope does: an empty slot takes the
/// value (`true`); a full one is left alone (`false`).
pub open spec fn spec_set_some<T>(slot: Option<T>, value: T) -> (Option<T>, bool) {
    match slot {
        None => (Some(value), true),
        Some(_) => (slot, false),
    }
}

/// Sets an empty `slot` to `Some(value)` for a scope; a full slot is left
/// alone and no guard is given.
pub fn scoped_set_some<T>(slot: &mut Option<T>, value: T) -> (guard: Option<SetGuard<Option<T>>>)
    ensures
        *final(slot) == spec_set_some(*old(slot), value).0,
        guard is Some == spec_set_some(*old(slot), value).1,
        guard matches Some(g) ==> g.spec_old() == *old(slot),
{
    scoped_set_if(slot, Some(value), |current: &Option<T>| -> (empty: bool)
        ensures
            empty == current.is_none(),
        { current.is_none() })
}

/// Only an empty slot takes a value for a scope, and it then holds exactly
/// that value; an occupied slot is left as it was: a second runtime is not
/// started within a running one.
pub proof fn lemma_scoped_set_some<T>(slot: Option<T>, value: T, other: T)
    ensures
        spec_set_some(slot, value).1 ==> slot is None,
        slot is None ==> spec_set_some(slot, value).0 == Some(value),
        spec_set_some(Some(other), value) == (Some(other), false),
{
}

} // verus!
