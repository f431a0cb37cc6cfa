//! The critical section under contention, as a transition system.
//!
//! Each caller goes round a cycle: it makes sure that the handle exists, by a
//! call through the section's latch; it acquires the handle, which the
//! operating system grants to one caller at a time; it holds a guard; and it
//! drops the guard, which releases the handle. As in [`crate::race`], a step
//! is one atomic action of one caller and a run is an interleaving.
//!
//! A caller does not ask for the handle again while it holds it: whether the
//! operating system would grant that is left open here.
//!
//! Constructing the handle wipes whatever the handle's storage held, its owner
//! included. That is why it matters that construction happens once, and
//! before anybody acquires.

use crate::race::Race;
use vstd::prelude::*;

verus! {

/// Where one caller of the section stands.
pub enum Stage {
    /// Not using the section.
    Outside,
    /// Inside the call through the latch that makes sure the handle exists.
    Preparing,
    /// Past the latch, waiting to be granted the handle.
    Acquiring,
    /// Inside the critical section, holding a guard.
    Holding,
}

/// What the handle's storage holds.
pub enum Slot {
    /// Nothing yet.
    Vacant,
    /// A handle that its constructor has not finished.
    Partial,
    /// A constructed handle.
    Ready,
}

/// The section's latch, the handle's owner, every caller's stage, and the
/// counters that the laws speak of.
pub struct Traffic {
    /// The latch that guards the handle's construction.
    pub latch: Race,
    /// The caller that the operating system has granted the handle to.
    pub owner: Option<int>,
    /// Each caller's stage.
    pub stages: Seq<Stage>,
    /// How many guards each caller has been given.
    pub entered: Seq<nat>,
    /// How many releases each caller's guards have performed.
    pub left: Seq<nat>,
}

impl Traffic {
    /// A fresh section with `n` callers, all of them outside.
    pub open spec fn fresh(n: nat) -> Traffic {
        Traffic {
            latch: Race::fresh(n),
            owner: None,
            stages: Seq::new(n, |i: int| Stage::Outside),
            entered: Seq::new(n, |i: int| 0nat),
            left: Seq::new(n, |i: int| 0nat),
        }
    }

    /// What the handle's storage holds: the constructor is the latch's
    /// initializer.
    pub open spec fn slot(self) -> Slot {
        if self.latch.started == 0 {
            Slot::Vacant
        } else if self.latch.finished < self.latch.started {
            Slot::Partial
        } else {
            Slot::Ready
        }
    }

    /// One atomic action of caller `t`. A caller that waits for a handle
    /// which another one owns stays where it is, and so does the whole state
    /// where `t` names no caller.
    pub open spec fn step(self, t: int) -> Traffic {
        if !(0 <= t < self.stages.len()) {
            self
        } else {
            match self.stages[t] {
                Stage::Outside => Traffic {
                    latch: self.latch.step(t),
                    stages: self.stages.update(t, Stage::Preparing),
                    ..self
                },
                Stage::Preparing => {
                    let latch = self.latch.step(t);
                    Traffic {
                        latch,
                        owner: if latch.started > self.latch.started {
                            None
                        } else {
                            self.owner
                        },
                        stages: if latch.returns[t] > self.latch.returns[t] {
                            self.stages.update(t, Stage::Acquiring)
                        } else {
                            self.stages
                        },
                        ..self
                    }
                },
                Stage::Acquiring => if self.owner is None {
                    Traffic {
                        owner: Some(t),
                        stages: self.stages.update(t, Stage::Holding),
                        entered: self.entered.update(t, self.entered[t] + 1),
                        ..self
                    }
                } else {
                    self
                },
                Stage::Holding => Traffic {
                    owner: None,
                    stages: self.stages.update(t, Stage::Outside),
                    left: self.left.update(t, self.left[t] + 1),
                    ..self
                },
            }
        }
    }

    /// The state after the callers named in `schedule` have each taken one
    /// step, in that order.
    pub open spec fn run(self, schedule: Seq<int>) -> Traffic
        decreases schedule.len(),
    {
        if schedule.len() == 0 {
            self
        } else {
            self.run(schedule.drop_last()).step(schedule.last())
        }
    }

    /// How many of caller `t`'s guards are alive: one while it holds, else
    /// none.
    pub open spec fn guards_alive(self, t: int) -> nat {
        if self.stages[t] is Holding {
            1
        } else {
            0
        }
    }

    /// What holds of every state that a run from a fresh section reaches.
    pub open spec fn wf(self) -> bool {
        &&& self.latch.wf()
        &&& self.latch.callers.len() == self.stages.len()
        &&& self.entered.len() == self.stages.len()
        &&& self.left.len() == self.stages.len()
        &&& forall|t: int|
            0 <= t < self.stages.len() ==> (#[trigger] self.stages[t] is Preparing <==> !(
            self.latch.callers[t] is Idle))
        &&& forall|t: int|
            0 <= t < self.stages.len() && (#[trigger] self.stages[t] is Acquiring
                || self.stages[t] is Holding) ==> self.latch.returns[t] > 0
        &&& forall|t: int|
            0 <= t < self.stages.len() ==> (#[trigger] self.stages[t] is Holding <==> self.owner
                == Some(t))
        &&& self.owner is Some ==> 0 <= self.owner->0 < self.stages.len()
        &&& forall|t: int|
            0 <= t < self.stages.len() ==> #[trigger] self.entered[t] == self.left[t]
                + self.guards_alive(t)
        &&& forall|t: int|
            0 <= t < self.stages.len() && #[trigger] self.entered[t] > 0
                ==> self.latch.returns[t] > 0
    }
}

/// A fresh section is well formed.
pub proof fn fresh_is_wf(n: nat)
    ensures
        Traffic::fresh(n).wf(),
        Traffic::fresh(n).stages.len() == n,
{
    crate::race::fresh_is_wf(n);
}

/// No step leads out of the well-formed states, and no step adds or removes
/// a caller.
pub proof fn step_keeps_wf(s: Traffic, t: int)
    requires
        s.wf(),
    ensures
        s.step(t).wf(),
        s.step(t).stages.len() == s.stages.len(),
{
    let r = s.step(t);
    if 0 <= t < s.stages.len() {
        crate::race::step_keeps_wf(s.latch, t);
        assert forall|a: int| 0 <= a < s.stages.len() && a != t implies r.latch.callers[a]
            == s.latch.callers[a] && r.latch.returns[a] == s.latch.returns[a] && r.stages[a]
            == s.stages[a] && r.entered[a] == s.entered[a] && r.left[a] == s.left[a] by {}
        if r.latch.started > s.latch.started {
            assert(s.latch.callers[t] is Begin);
            assert(s.latch.initializing(t));
            assert(s.latch.flag is Initializing);
            assert forall|a: int| 0 <= a < s.stages.len() implies !(s.stages[a] is Holding) by {
                if s.stages[a] is Holding {
                    assert(s.latch.returns[a] > 0);
                }
            }
            if s.owner is Some {
                assert(s.stages[s.owner->0] is Holding);
            }
        }
        assert forall|a: int| 0 <= a < r.stages.len() implies (r.stages[a] is Holding <==> r.owner
            == Some(a)) by {
            assert(s.stages[a] is Holding <==> s.owner == Some(a));
        }
        assert forall|a: int| 0 <= a < r.stages.len() implies r.entered[a] == r.left[a]
            + r.guards_alive(a) by {
            assert(s.entered[a] == s.left[a] + s.guards_alive(a));
        }
    }
}

/// No run leads out of the well-formed states, and no run adds or removes a
/// caller.
pub proof fn run_keeps_wf(s: Traffic, schedule: Seq<int>)
    requires
        s.wf(),
    ensures
        s.run(schedule).wf(),
        s.run(schedule).stages.len() == s.stages.len(),
    decreases schedule.len(),
{
    if schedule.len() > 0 {
        run_keeps_wf(s, schedule.drop_last());
        step_keeps_wf(s.run(schedule.drop_last()), schedule.last());
    }
}

/// Mutual exclusion: however `n` callers are interleaved, no two of them
/// hold a guard at the same time.
pub proof fn mutual_exclusion(n: nat, schedule: Seq<int>, t: int, u: int)
    requires
        0 <= t < n,
        0 <= u < n,
        Traffic::fresh(n).run(schedule).stages[t] is Holding,
        Traffic::fresh(n).run(schedule).stages[u] is Holding,
    ensures
        t == u,
{
    fresh_is_wf(n);
    run_keeps_wf(Traffic::fresh(n), schedule);
    let s = Traffic::fresh(n).run(schedule);
    assert(s.owner == Some(t));
    assert(s.owner == Some(u));
}

/// Behind the latch the handle is whole: a caller that waits for the handle or
/// holds it finds the handle constructed, never vacant and never half done.
pub proof fn handle_ready_behind_latch(n: nat, schedule: Seq<int>, t: int)
    requires
        0 <= t < n,
        Traffic::fresh(n).run(schedule).stages[t] is Acquiring || Traffic::fresh(n).run(
            schedule,
        ).stages[t] is Holding,
    ensures
        Traffic::fresh(n).run(schedule).slot() is Ready,
        Traffic::fresh(n).run(schedule).latch.flag is Initialized,
{
    fresh_is_wf(n);
    run_keeps_wf(Traffic::fresh(n), schedule);
    let s = Traffic::fresh(n).run(schedule);
    assert(s.latch.returns[t] > 0);
}

/// Construction comes first: the step that starts the handle's constructor
/// finds the handle unowned, and no caller has ever been given a guard.
pub proof fn construction_precedes_acquisition(s: Traffic, t: int, u: int)
    requires
        s.wf(),
        0 <= u < s.stages.len(),
        s.step(t).latch.started > s.latch.started,
    ensures
        s.owner is None,
        s.entered[u] == 0,
        s.latch.started == 0,
{
    assert(0 <= t < s.stages.len());
    assert(s.latch.initializing(t));
    if s.owner is Some {
        assert(s.stages[s.owner->0] is Holding);
    }
    if s.entered[u] > 0 {
        assert(s.latch.returns[u] > 0);
    }
}

/// Every guard is released once: at any moment the guards that a caller has
/// been given are those whose release has been performed and, while the
/// caller holds, the one that is alive.
pub proof fn guards_balance(n: nat, schedule: Seq<int>, t: int)
    requires
        0 <= t < n,
    ensures
        Traffic::fresh(n).run(schedule).entered[t] == Traffic::fresh(n).run(schedule).left[t]
            + Traffic::fresh(n).run(schedule).guards_alive(t),
{
    fresh_is_wf(n);
    run_keeps_wf(Traffic::fresh(n), schedule);
}

/// Dropping a guard performs one release: the holder's next step hands the
/// handle back, adds one to the holder's releases and leaves the holder
/// outside with no guard alive.
pub proof fn drop_releases_once(s: Traffic, t: int)
    requires
        s.wf(),
        0 <= t < s.stages.len(),
        s.stages[t] is Holding,
    ensures
        s.step(t).left[t] == s.left[t] + 1,
        s.step(t).entered[t] == s.entered[t],
        s.step(t).owner is None,
        s.step(t).stages[t] is Outside,
        s.step(t).guards_alive(t) == 0,
{
}

/// Nobody releases for another: a step of one caller changes neither the
/// guards given to another caller nor that caller's releases.
pub proof fn release_is_the_holders(s: Traffic, t: int, u: int)
    requires
        s.wf(),
        0 <= u < s.stages.len(),
        t != u,
    ensures
        s.step(t).left[u] == s.left[u],
        s.step(t).entered[u] == s.entered[u],
        s.step(t).stages[u] == s.stages[u],
{
}

/// The section's flag only moves forward along a run.
pub proof fn flag_never_regresses(s: Traffic, schedule: Seq<int>)
    ensures
        s.run(schedule).latch.flag.code_of() >= s.latch.flag.code_of(),
    decreases schedule.len(),
{
    if schedule.len() > 0 {
        flag_never_regresses(s, schedule.drop_last());
        crate::race::flag_never_regresses(s.run(schedule.drop_last()).latch, schedule.last());
    }
}

/// Constructed once: however `n` callers are interleaved and however many
/// cycles they complete, the handle's constructor is started at most once,
/// and a caller that has ever been given a guard finds it started once and
/// finished.
pub proof fn constructed_once(n: nat, schedule: Seq<int>, t: int)
    requires
        0 <= t < n,
    ensures
        Traffic::fresh(n).run(schedule).latch.started <= 1,
        Traffic::fresh(n).run(schedule).entered[t] > 0 ==> {
            &&& Traffic::fresh(n).run(schedule).latch.started == 1
            &&& Traffic::fresh(n).run(schedule).latch.finished == 1
        },
{
    fresh_is_wf(n);
    run_keeps_wf(Traffic::fresh(n), schedule);
    let s = Traffic::fresh(n).run(schedule);
    if s.entered[t] > 0 {
        assert(s.latch.returns[t] > 0);
    }
}

/// Never constructed again: from a section whose latch is open, no run,
/// however many cycles it holds, starts the constructor again.
pub proof fn no_second_construction(s: Traffic, schedule: Seq<int>)
    requires
        s.wf(),
        s.latch.flag is Initialized,
    ensures
        s.latch.started == 1,
        s.run(schedule).latch.started == 1,
        s.run(schedule).latch.finished == 1,
        s.run(schedule).latch.flag is Initialized,
        s.run(schedule).slot() is Ready,
{
    run_keeps_wf(s, schedule);
    flag_never_regresses(s, schedule);
}

/// Nothing holds up a caller that is alone: on a fresh section, seven steps
/// of one caller take it through the latch, with the handle constructed by
/// itself, and into the critical section.
pub proof fn lone_caller_gets_through(n: nat, t: int)
    requires
        0 <= t < n,
    ensures
        Traffic::fresh(n).run(Seq::new(7, |i: int| t)).stages[t] is Holding,
        Traffic::fresh(n).run(Seq::new(7, |i: int| t)).owner == Some(t),
        Traffic::fresh(n).run(Seq::new(7, |i: int| t)).latch.started == 1,
        Traffic::fresh(n).run(Seq::new(7, |i: int| t)).entered[t] == 1,
{
    let s0 = Traffic::fresh(n);
    let s1 = s0.step(t);
    let s2 = s1.step(t);
    let s3 = s2.step(t);
    let s4 = s3.step(t);
    let s5 = s4.step(t);
    let s6 = s5.step(t);
    let s7 = s6.step(t);
    assert(s1.stages[t] is Preparing && s1.latch.callers[t] is Check);
    assert(s2.stages[t] is Preparing && s2.latch.callers[t] is Claim);
    assert(s3.stages[t] is Preparing && s3.latch.callers[t] is Begin);
    assert(s4.stages[t] is Preparing && s4.latch.callers[t] is Finish);
    assert(s5.stages[t] is Preparing && s5.latch.callers[t] is Publish);
    assert(s6.stages[t] is Acquiring && s6.owner is None);
    assert(s7.stages[t] is Holding);
    let sched = Seq::new(7, |i: int| t);
    assert(sched.drop_last() =~= Seq::new(6, |i: int| t));
    assert(Seq::new(6, |i: int| t).drop_last() =~= Seq::new(5, |i: int| t));
    assert(Seq::new(5, |i: int| t).drop_last() =~= Seq::new(4, |i: int| t));
    assert(Seq::new(4, |i: int| t).drop_last() =~= Seq::new(3, |i: int| t));
    assert(Seq::new(3, |i: int| t).drop_last() =~= Seq::new(2, |i: int| t));
    assert(Seq::new(2, |i: int| t).drop_last() =~= Seq::new(1, |i: int| t));
    assert(Seq::new(1, |i: int| t).drop_last() =~= Seq::<int>::empty());
    reveal_with_fuel(Traffic::run, 8);
    assert(s0.run(Seq::<int>::empty()) == s0);
    assert(s0.run(Seq::new(1, |i: int| t)) == s1);
    assert(s0.run(Seq::new(2, |i: int| t)) == s2);
    assert(s0.run(Seq::new(3, |i: int| t)) == s3);
    assert(s0.run(Seq::new(4, |i: int| t)) == s4);
    assert(s0.run(Seq::new(5, |i: int| t)) == s5);
    assert(s0.run(Seq::new(6, |i: int| t)) == s6);
    assert(s0.run(sched) == s7);
}

} // verus!
