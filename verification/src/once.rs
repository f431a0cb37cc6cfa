//! A latch that lets one initializer run, once, however many callers race for it.
//!
//! The latch is a single atomic byte that only ever moves forward through
//! [`LatchState`]. A caller reads it, and unless it already says `Initialized`
//! tries to claim it with a compare-and-swap from `Uninitialized` to
//! `Initializing`. The one caller whose swap succeeds runs the initializer and
//! then publishes `Initialized`; every other caller backs off and looks again.
//!
//! [`Once::attempt`] is one such round. It never blocks: a caller that has to
//! wait gets its initializer back and decides for itself how to pause before
//! the next round.

use core::sync::atomic::{AtomicU8, Ordering};
use vstd::prelude::*;

verus! {

/// The three values that the flag of a latch can hold.
#[derive(Clone, Copy, Debug, PartialEq, Eq, Structural)]
pub enum LatchState {
    /// Nobody has claimed the latch yet.
    Uninitialized,
    /// One caller has claimed the latch and has not yet published.
    Initializing,
    /// The initializer has completed.
    Initialized,
}

impl LatchState {
    /// The byte that stands for this state in the flag. A later state has a
    /// larger byte.
    pub open spec fn code_of(self) -> u8 {
        match self {
            LatchState::Uninitialized => 0,
            LatchState::Initializing => 1,
            LatchState::Initialized => 2,
        }
    }

    /// The byte that stands for this state in the flag.
    pub fn code(self) -> (c: u8)
        ensures
            c == self.code_of(),
    {
        match self {
            LatchState::Uninitialized => 0,
            LatchState::Initializing => 1,
            LatchState::Initialized => 2,
        }
    }
}

/// What a caller does once it has read the flag.
#[derive(Clone, Copy, Debug, PartialEq, Eq, Structural)]
pub enum AfterLoad {
    /// The initializer has completed: return without writing anything.
    Return,
    /// It has not: try to claim the latch.
    Claim,
}

/// What a caller does once its compare-and-swap has come back.
#[derive(Clone, Copy, Debug, PartialEq, Eq, Structural)]
pub enum AfterClaim {
    /// The swap succeeded: this caller, and no other, runs the initializer.
    Initialize,
    /// The swap failed: somebody else holds or has finished the claim.
    Pause,
}

/// The decision after a load that saw the byte `seen`.
pub open spec fn after_load_of(seen: u8) -> AfterLoad {
    if seen == LatchState::Initialized.code_of() {
        AfterLoad::Return
    } else {
        AfterLoad::Claim
    }
}

/// The decision after a compare-and-swap that came back with `outcome`.
pub open spec fn after_claim_of(outcome: Result<u8, u8>) -> AfterClaim {
    match outcome {
        Ok(_) => AfterClaim::Initialize,
        Err(_) => AfterClaim::Pause,
    }
}

/// What a sequentially consistent compare-and-swap from `Uninitialized` to
/// `Initializing` does to a flag that holds `flag`: the outcome handed to the
/// caller, and the byte the flag holds afterwards.
pub open spec fn claim_of(flag: u8) -> (Result<u8, u8>, u8) {
    if flag == LatchState::Uninitialized.code_of() {
        (Ok(flag), LatchState::Initializing.code_of())
    } else {
        (Err(flag), flag)
    }
}

/// Decides what follows a load of the flag: only the byte for `Initialized`
/// lets the caller through.
pub fn after_load(seen: u8) -> (next: AfterLoad)
    ensures
        next == after_load_of(seen),
{
    if seen == LatchState::Initialized.code() {
        AfterLoad::Return
    } else {
        AfterLoad::Claim
    }
}

/// Decides what follows the compare-and-swap: a success makes the caller the
/// initializer, a failure sends it to wait, whatever byte came with either.
pub fn after_claim(outcome: Result<u8, u8>) -> (next: AfterClaim)
    ensures
        next == after_claim_of(outcome),
{
    match outcome {
        Ok(_) => AfterClaim::Initialize,
        Err(_) => AfterClaim::Pause,
    }
}

/// How one round at the latch ended.
pub enum Attempt<F> {
    /// This caller won the claim, ran the initializer and published.
    Ran,
    /// The latch was already open. The initializer comes back unused.
    Ready(F),
    /// Another caller holds the claim. The initializer comes back unused;
    /// pause, then try again.
    Busy(F),
}

/// The byte that an atomic was created with. It is fixed when the atomic is
/// made and says nothing of what the atomic holds at any later time.
pub uninterp spec fn created_with(flag: AtomicU8) -> u8;

/// Makes the flag, by `AtomicU8::new`. Not proved, but taken from the
/// standard library's documentation: the new atomic is created with the byte
/// `start`.
#[verifier::external_body]
fn new_flag(start: u8) -> (flag: AtomicU8)
    ensures
        created_with(flag) == start,
{
    AtomicU8::new(start)
}

/// The latch: one atomic flag.
pub struct Once {
    lock: AtomicU8,
}

impl Once {
    /// The state that the latch was created in, as the byte that its flag was
    /// created with.
    pub closed spec fn initial_code(self) -> u8 {
        created_with(self.lock)
    }

    /// A latch that nobody has claimed: its flag starts as `Uninitialized`.
    pub fn new() -> (once: Once)
        ensures
            once.initial_code() == LatchState::Uninitialized.code_of(),
    {
        Once { lock: new_flag(LatchState::Uninitialized.code()) }
    }

    /// One round at the latch.
    ///
    /// Reads the flag; if it says `Initialized`, hands `func` back at once and
    /// writes nothing. Otherwise tries the claim: on success runs `func` and
    /// then publishes `Initialized`, on failure hands `func` back.
    ///
    /// Which of the three it is depends on the other callers. Whatever it is,
    /// `func` has either run to completion here or is returned untouched.
    pub fn attempt<F: FnOnce()>(&self, func: F) -> (round: Attempt<F>)
        requires
            call_requires(func, ()),
        ensures
            match round {
                Attempt::Ran => call_ensures(func, (), ()),
                Attempt::Ready(f) => f == func,
                Attempt::Busy(f) => f == func,
            },
    {
        let seen: u8 = self.lock.load(Ordering::SeqCst);
        match after_load(seen) {
            AfterLoad::Return => Attempt::Ready(func),
            AfterLoad::Claim => {
                let outcome = self.lock.compare_exchange(
                    LatchState::Uninitialized.code(),
                    LatchState::Initializing.code(),
                    Ordering::SeqCst,
                    Ordering::SeqCst,
                );
                match after_claim(outcome) {
                    AfterClaim::Initialize => {
                        func();
                        self.lock.store(LatchState::Initialized.code(), Ordering::SeqCst);
                        Attempt::Ran
                    },
                    AfterClaim::Pause => Attempt::Busy(func),
                }
            },
        }
    }
}

impl Default for Once {
    /// A latch that nobody has claimed: its flag starts as `Uninitialized`.
    fn default() -> (once: Once)
        ensures
            once.initial_code() == LatchState::Uninitialized.code_of(),
    {
        Once::new()
    }
}

} // verus!
