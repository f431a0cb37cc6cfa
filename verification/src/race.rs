//! The latch under contention, as a transition system.
//!
//! Any number of callers share one flag. Each step of the system is one atomic
//! action of one caller; the flag's reads and writes are sequentially
//! consistent, so a run of the system is an interleaving of such steps, given
//! by the order in which callers are scheduled. What a caller does after each
//! read or swap is decided by the same functions that [`Once::attempt`] uses.
//!
//! [`Once::attempt`]: crate::once::Once::attempt

use crate::once::{after_claim_of, after_load_of, claim_of, AfterClaim, AfterLoad, LatchState};
use vstd::prelude::*;

verus! {

/// Where one caller of the latch stands.
pub enum Step {
    /// Not inside a call.
    Idle,
    /// Inside a call, about to read the flag.
    Check,
    /// About to try the compare-and-swap.
    Claim,
    /// Won the claim, about to start the initializer.
    Begin,
    /// Inside the initializer.
    Finish,
    /// Initializer done, about to publish `Initialized`.
    Publish,
    /// Lost the claim, about to pause.
    Pause,
}

/// The shared flag together with every caller's position and the counters
/// that the laws speak of.
pub struct Race {
    /// What the flag holds.
    pub flag: LatchState,
    /// How many times the initializer has been started.
    pub started: nat,
    /// How many times the initializer has run to completion.
    pub finished: nat,
    /// Each caller's position.
    pub callers: Seq<Step>,
    /// How many calls each caller has returned from.
    pub returns: Seq<nat>,
}

impl Race {
    /// A fresh latch with `n` callers, none of which has called yet.
    pub open spec fn fresh(n: nat) -> Race {
        Race {
            flag: LatchState::Uninitialized,
            started: 0,
            finished: 0,
            callers: Seq::new(n, |i: int| Step::Idle),
            returns: Seq::new(n, |i: int| 0nat),
        }
    }

    /// The state with caller `t` moved to `to`.
    pub open spec fn moved(self, t: int, to: Step) -> Race {
        Race { callers: self.callers.update(t, to), ..self }
    }

    /// The state with caller `t` back from its call.
    pub open spec fn returned(self, t: int) -> Race {
        Race {
            callers: self.callers.update(t, Step::Idle),
            returns: self.returns.update(t, self.returns[t] + 1),
            ..self
        }
    }

    /// The flag after a compare-and-swap from `Uninitialized` to
    /// `Initializing`.
    pub open spec fn flag_after_claim(self) -> LatchState {
        if claim_of(self.flag.code_of()).1 == LatchState::Initializing.code_of() {
            LatchState::Initializing
        } else {
            self.flag
        }
    }

    /// One atomic action of caller `t`. A `t` that names no caller leaves the
    /// state as it is.
    pub open spec fn step(self, t: int) -> Race {
        if !(0 <= t < self.callers.len()) {
            self
        } else {
            match self.callers[t] {
                Step::Idle => self.moved(t, Step::Check),
                Step::Check => match after_load_of(self.flag.code_of()) {
                    AfterLoad::Return => self.returned(t),
                    AfterLoad::Claim => self.moved(t, Step::Claim),
                },
                Step::Claim => match after_claim_of(claim_of(self.flag.code_of()).0) {
                    AfterClaim::Initialize => Race {
                        flag: self.flag_after_claim(),
                        ..self.moved(t, Step::Begin)
                    },
                    AfterClaim::Pause => self.moved(t, Step::Pause),
                },
                Step::Begin => Race { started: self.started + 1, ..self.moved(t, Step::Finish) },
                Step::Finish => Race {
                    finished: self.finished + 1,
                    ..self.moved(t, Step::Publish)
                },
                Step::Publish => Race { flag: LatchState::Initialized, ..self.returned(t) },
                Step::Pause => self.moved(t, Step::Check),
            }
        }
    }

    /// The state after the callers named in `schedule` have each taken one
    /// step, in that order.
    pub open spec fn run(self, schedule: Seq<int>) -> Race
        decreases schedule.len(),
    {
        if schedule.len() == 0 {
            self
        } else {
            self.run(schedule.drop_last()).step(schedule.last())
        }
    }

    /// Whether caller `t` is the initializer: it has won the claim and has not
    /// yet published.
    pub open spec fn initializing(self, t: int) -> bool {
        self.callers[t] is Begin || self.callers[t] is Finish || self.callers[t] is Publish
    }

    /// What holds of every state that a run from a fresh latch reaches.
    pub open spec fn wf(self) -> bool {
        &&& self.callers.len() == self.returns.len()
        &&& self.finished <= self.started <= 1
        &&& forall|t: int, u: int|
            0 <= t < self.callers.len() && 0 <= u < self.callers.len() && self.initializing(t)
                && self.initializing(u) ==> t == u
        &&& forall|t: int|
            0 <= t < self.callers.len() && self.initializing(t) ==> {
                &&& self.flag is Initializing
                &&& self.callers[t] is Begin ==> self.started == 0
                &&& self.callers[t] is Finish ==> self.started == 1 && self.finished == 0
                &&& self.callers[t] is Publish ==> self.finished == 1
            }
        &&& self.flag is Uninitialized ==> self.started == 0
        &&& self.flag is Initialized ==> self.finished == 1
        &&& forall|t: int|
            0 <= t < self.callers.len() && self.returns[t] > 0 ==> self.flag is Initialized
    }
}

/// A fresh latch is well formed.
pub proof fn fresh_is_wf(n: nat)
    ensures
        Race::fresh(n).wf(),
        Race::fresh(n).callers.len() == n,
{
}

/// No step leads out of the well-formed states, and no step adds or removes
/// a caller.
pub proof fn step_keeps_wf(g: Race, t: int)
    requires
        g.wf(),
    ensures
        g.step(t).wf(),
        g.step(t).callers.len() == g.callers.len(),
{
    let h = g.step(t);
    if 0 <= t < g.callers.len() {
        // Only `t` moves. It is the initializer afterwards if it was before, or
        // if it has just won the claim on an unclaimed flag.
        let was = g.initializing(t);
        assert(was ==> g.flag is Initializing);
        assert(h.callers.len() == g.callers.len());
        assert(h.callers[t] is Begin ==> g.callers[t] is Claim && g.flag is Uninitialized);
        assert(h.initializing(t) ==> was || g.flag is Uninitialized);
        assert forall|a: int| 0 <= a < h.callers.len() && a != t implies h.callers[a]
            == g.callers[a] && h.returns[a] == g.returns[a] by {}
        assert forall|a: int, b: int|
            0 <= a < h.callers.len() && 0 <= b < h.callers.len() && h.initializing(a)
                && h.initializing(b) implies a == b by {
            if a != t {
                assert(g.initializing(a));
            }
            if b != t {
                assert(g.initializing(b));
            }
        }
        assert forall|a: int| 0 <= a < h.callers.len() && h.initializing(a) implies {
            &&& h.flag is Initializing
            &&& h.callers[a] is Begin ==> h.started == 0
            &&& h.callers[a] is Finish ==> h.started == 1 && h.finished == 0
            &&& h.callers[a] is Publish ==> h.finished == 1
        } by {
            if a != t {
                assert(g.initializing(a));
                assert(!was);
                assert(!(g.flag is Uninitialized));
            }
        }
        assert forall|a: int| 0 <= a < h.callers.len() && h.returns[a] > 0 implies h.flag
            is Initialized by {
            if a != t {
                assert(g.returns[a] > 0);
                assert(!was);
            }
        }
    }
}

/// No run leads out of the well-formed states, and no run adds or removes a
/// caller.
pub proof fn run_keeps_wf(g: Race, schedule: Seq<int>)
    requires
        g.wf(),
    ensures
        g.run(schedule).wf(),
        g.run(schedule).callers.len() == g.callers.len(),
    decreases schedule.len(),
{
    if schedule.len() > 0 {
        run_keeps_wf(g, schedule.drop_last());
        step_keeps_wf(g.run(schedule.drop_last()), schedule.last());
    }
}

/// Exactly once: however `n` callers are interleaved, the initializer is
/// started at most once, and a caller that has returned from a call did so
/// with the initializer started once and run to completion.
pub proof fn exactly_once(n: nat, schedule: Seq<int>, t: int)
    requires
        0 <= t < n,
    ensures
        Race::fresh(n).run(schedule).started <= 1,
        Race::fresh(n).run(schedule).finished <= Race::fresh(n).run(schedule).started,
        Race::fresh(n).run(schedule).returns[t] > 0 ==> {
            &&& Race::fresh(n).run(schedule).started == 1
            &&& Race::fresh(n).run(schedule).finished == 1
        },
{
    fresh_is_wf(n);
    run_keeps_wf(Race::fresh(n), schedule);
}

/// Completion comes first: the step in which a caller returns from a call
/// ends in a state where the initializer has run to completion and the flag
/// says so. A caller that returns from its read of the flag found both
/// already so before that step.
pub proof fn return_follows_completion(g: Race, t: int)
    requires
        g.wf(),
        0 <= t < g.callers.len(),
        g.step(t).returns[t] > g.returns[t],
    ensures
        g.step(t).finished == 1,
        g.step(t).flag is Initialized,
        g.callers[t] is Check ==> g.finished == 1 && g.flag is Initialized,
{
    step_keeps_wf(g, t);
}

/// The flag only moves forward: no step takes it to an earlier state.
pub proof fn flag_never_regresses(g: Race, t: int)
    ensures
        g.step(t).flag.code_of() >= g.flag.code_of(),
{
}

/// The flag only moves forward along a whole run.
pub proof fn flag_never_regresses_in_run(g: Race, schedule: Seq<int>)
    ensures
        g.run(schedule).flag.code_of() >= g.flag.code_of(),
    decreases schedule.len(),
{
    if schedule.len() > 0 {
        flag_never_regresses_in_run(g, schedule.drop_last());
        flag_never_regresses(g.run(schedule.drop_last()), schedule.last());
    }
}

/// The fast path: on a latch whose flag says `Initialized`, a caller that
/// reads the flag returns in that very step, and the step writes nothing:
/// the flag and both counters stay as they were.
pub proof fn open_latch_lets_through(g: Race, t: int)
    requires
        0 <= t < g.callers.len(),
        g.flag is Initialized,
        g.callers[t] is Check,
    ensures
        g.step(t) == g.returned(t),
        g.step(t).flag == g.flag,
        g.step(t).started == g.started,
        g.step(t).finished == g.finished,
{
}

/// Once open, open for good: from a latch whose flag says `Initialized`, no
/// run, however long, starts the initializer again or moves the flag.
pub proof fn no_second_initialization(g: Race, schedule: Seq<int>)
    requires
        g.wf(),
        g.flag is Initialized,
    ensures
        g.run(schedule).flag is Initialized,
        g.run(schedule).started == 1,
        g.run(schedule).finished == 1,
        g.started == 1,
        g.finished == 1,
{
    run_keeps_wf(g, schedule);
    flag_never_regresses_in_run(g, schedule);
}

} // verus!
