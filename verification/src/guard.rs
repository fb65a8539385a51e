//! The guard: one process handle, one strategy, one shot.

use vstd::prelude::*;
use crate::strategy::ProcessTermination;

verus! {

/// Binds a process handle of type `H` to the strategy that is to end the
/// process.
///
/// The guard fires at most once. [`ProcGuard::terminate`] hands the strategy
/// out the first time it is called and nothing afterwards, so that an explicit
/// termination followed by the one at scope exit acts on the process once.
/// [`ProcGuard::release`] hands the handle back and disarms the guard.
#[derive(Debug)]
pub struct ProcGuard<H> {
    child: Option<H>,
    dropped: bool,
    termination: ProcessTermination,
}

/// What a guard is, for reasoning: the handle it holds, whether it is spent,
/// and its strategy.
pub struct GuardState<H> {
    /// The guarded handle, `None` once it has been released.
    pub child: Option<H>,
    /// Whether the guard has fired or has been disarmed.
    pub spent: bool,
    /// The strategy that the guard was built with.
    pub termination: ProcessTermination,
}

impl<H> GuardState<H> {
    /// The invariant of every guard: one that has given its handle away can
    /// no longer fire.
    pub open spec fn wf(self) -> bool {
        self.child is None ==> self.spent
    }

    /// What terminating the guard returns: the strategy to run, unless the
    /// guard is spent.
    pub open spec fn owed(self) -> Option<ProcessTermination> {
        if self.spent {
            None
        } else {
            Some(self.termination)
        }
    }

    /// The guard after it was terminated: spent, and otherwise as it was.
    pub open spec fn fired(self) -> Self {
        GuardState { spent: true, ..self }
    }

    /// The guard after it was released: spent and without its handle.
    pub open spec fn released(self) -> Self {
        GuardState { child: None, spent: true, ..self }
    }
}

impl<H> View for ProcGuard<H> {
    type V = GuardState<H>;

    closed spec fn view(&self) -> GuardState<H> {
        GuardState { child: self.child, spent: self.dropped, termination: self.termination }
    }
}

impl<H> ProcGuard<H> {
    /// Guards `child`, to be ended by `termination`.
    pub fn new(child: H, termination: ProcessTermination) -> (guard: Self)
        ensures
            guard@ == (GuardState { child: Some(child), spent: false, termination }),
            guard@.wf(),
    {
        ProcGuard { child: Some(child), dropped: false, termination }
    }

    /// The guarded handle, `None` once it has been released.
    pub fn child(&self) -> (child: Option<&H>)
        ensures
            match child {
                Some(handle) => self@.child == Some(*handle),
                None => self@.child is None,
            },
    {
        self.child.as_ref()
    }

    /// The guarded handle for changing, `None` once it has been released.
    /// Whatever is done to the handle, the guard stays as armed or as spent
    /// as it is.
    pub fn mut_child(&mut self) -> (child: Option<&mut H>)
        ensures
            match child {
                Some(handle) => {
                    &&& old(self)@.child == Some(*handle)
                    &&& final(self)@ == (GuardState {
                        child: Some(*final(handle)),
                        ..old(self)@
                    })
                },
                None => old(self)@.child is None && final(self)@ == old(self)@,
            },
            old(self)@.wf() ==> final(self)@.wf(),
    {
        self.child.as_mut()
    }

    /// The strategy that the guard was built with.
    pub fn termination(&self) -> (termination: ProcessTermination)
        ensures
            termination == self@.termination,
    {
        self.termination
    }

    /// Hands the handle back without ending the process and disarms the
    /// guard: no later call of [`ProcGuard::terminate`] returns a strategy.
    /// Returns `None` if the handle was released before.
    pub fn release(&mut self) -> (child: Option<H>)
        ensures
            child == old(self)@.child,
            final(self)@ == old(self)@.released(),
            final(self)@.wf(),
    {
        self.dropped = true;
        self.child.take()
    }

    /// The terminate-once transition. The first call on an armed guard
    /// returns the strategy to run on the guarded process and marks the guard
    /// spent; every later call, and every call on a released guard, returns
    /// `None` and changes nothing.
    pub fn terminate(&mut self) -> (termination: Option<ProcessTermination>)
        ensures
            termination == old(self)@.owed(),
            final(self)@ == old(self)@.fired(),
            old(self)@.wf() ==> final(self)@.wf(),
    {
        if self.dropped {
            return None;
        }
        self.dropped = true;
        Some(self.termination)
    }
}

/// A guard fires once: after one termination, a second one returns nothing
/// and leaves the guard exactly as it is, and so does every one after that.
pub proof fn lemma_terminate_once<H>(guard: GuardState<H>)
    ensures
        guard.fired().owed() is None,
        guard.fired().fired() == guard.fired(),
        guard.spent ==> guard.owed() is None && guard.fired() == guard,
{
}

/// Release transfers ownership: a released guard holds no handle, and
/// terminating it, as happens at scope exit, returns nothing and leaves the
/// guard exactly as it is.
pub proof fn lemma_release_disarms<H>(guard: GuardState<H>)
    ensures
        guard.released().child is None,
        guard.released().owed() is None,
        guard.released().fired() == guard.released(),
        guard.released().released() == guard.released(),
{
}

/// An armed guard holds its handle: whenever a well-formed guard owes a
/// strategy, the process to run it on is there, before and after the guard
/// has fired.
pub proof fn lemma_armed_guard_holds_child<H>(guard: GuardState<H>)
    requires
        guard.wf(),
        guard.owed() is Some,
    ensures
        guard.child is Some,
        guard.fired().child == guard.child,
        guard.fired().wf(),
{
}

} // verus!
