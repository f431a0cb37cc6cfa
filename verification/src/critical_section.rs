//! A critical section whose handle is constructed on first use.
//!
//! The section owns the latch that guards the handle's construction. The
//! handle itself, and the operations that construct, acquire and release it,
//! belong to the operating system and stay with the caller: the section says
//! when each of them is due.

use crate::once::{Attempt, LatchState, Once};
use vstd::prelude::*;

verus! {

/// The latch of one lazily constructed handle.
pub struct CriticalSection {
    once: Once,
}

impl CriticalSection {
    /// The latch that guards the handle's construction.
    pub closed spec fn latch(self) -> Once {
        self.once
    }

    /// A section whose handle has not been constructed: its latch is one
    /// that nobody has claimed.
    pub fn new() -> (section: CriticalSection)
        ensures
            section.latch().initial_code() == LatchState::Uninitialized.code_of(),
    {
        CriticalSection { once: Once::new() }
    }

    /// One round of making sure that the handle exists, with `construct` as
    /// the handle's one-time constructor.
    ///
    /// The caller may acquire the handle once a round has ended in
    /// [`Attempt::Ran`] or [`Attempt::Ready`]. After [`Attempt::Busy`] the
    /// handle is still under construction elsewhere: pause, then call again
    /// with the constructor that came back.
    ///
    /// Whatever the round's end, `construct` has either run to completion
    /// here or is returned untouched.
    pub fn prepare<F: FnOnce()>(&self, construct: F) -> (round: Attempt<F>)
        requires
            call_requires(construct, ()),
        ensures
            match round {
                Attempt::Ran => call_ensures(construct, (), ()),
                Attempt::Ready(f) => f == construct,
                Attempt::Busy(f) => f == construct,
            },
    {
        self.once.attempt(construct)
    }
}

} // verus!
