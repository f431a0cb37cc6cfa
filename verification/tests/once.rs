use std::cell::Cell;
use std::sync::atomic::{AtomicUsize, Ordering};
use std::sync::Arc;

use lazy_section::once::{after_claim, after_load, AfterClaim, AfterLoad, Attempt, LatchState, Once};

#[test]
fn state_codes_rise_with_the_state() {
    assert_eq!(LatchState::Uninitialized.code(), 0);
    assert_eq!(LatchState::Initializing.code(), 1);
    assert_eq!(LatchState::Initialized.code(), 2);
}

#[test]
fn only_initialized_lets_a_caller_return() {
    assert_eq!(after_load(0), AfterLoad::Claim);
    assert_eq!(after_load(1), AfterLoad::Claim);
    assert_eq!(after_load(2), AfterLoad::Return);
    assert_eq!(after_load(3), AfterLoad::Claim);
    assert_eq!(after_load(255), AfterLoad::Claim);
}

#[test]
fn a_successful_swap_makes_the_initializer() {
    assert_eq!(after_claim(Ok(0)), AfterClaim::Initialize);
    assert_eq!(after_claim(Ok(7)), AfterClaim::Initialize);
}

#[test]
fn a_failed_swap_sends_to_wait() {
    assert_eq!(after_claim(Err(1)), AfterClaim::Pause);
    assert_eq!(after_claim(Err(2)), AfterClaim::Pause);
    assert_eq!(after_claim(Err(0)), AfterClaim::Pause);
}

#[test]
fn first_round_on_a_fresh_latch_runs_the_initializer() {
    let once = Once::new();
    let runs = Cell::new(0u32);
    let round = once.attempt(|| runs.set(runs.get() + 1));
    assert!(matches!(round, Attempt::Ran));
    assert_eq!(runs.get(), 1);
}

#[test]
fn default_latch_is_unclaimed() {
    let once = Once::default();
    let runs = Cell::new(0u32);
    assert!(matches!(once.attempt(|| runs.set(runs.get() + 1)), Attempt::Ran));
    assert_eq!(runs.get(), 1);
}

#[test]
fn later_rounds_hand_the_initializer_back_unused() {
    let once = Once::new();
    let runs = Cell::new(0u32);
    assert!(matches!(once.attempt(|| runs.set(runs.get() + 1)), Attempt::Ran));
    for _ in 0..100 {
        let round = once.attempt(|| runs.set(runs.get() + 1));
        match round {
            Attempt::Ready(unused) => {
                assert_eq!(runs.get(), 1);
                // The closure that came back is the one handed in: running it
                // by hand is the only way to move the counter.
                unused();
                assert_eq!(runs.get(), 2);
                runs.set(1);
            }
            _ => panic!("an open latch must answer Ready"),
        }
    }
    assert_eq!(runs.get(), 1);
}

#[test]
fn a_round_during_initialization_is_busy() {
    let once = Once::new();
    let inner_runs = Cell::new(0u32);
    let saw_busy = Cell::new(false);
    let round = once.attempt(|| {
        let nested = once.attempt(|| inner_runs.set(inner_runs.get() + 1));
        if let Attempt::Busy(unused) = nested {
            saw_busy.set(true);
            drop(unused);
        }
    });
    assert!(matches!(round, Attempt::Ran));
    assert!(saw_busy.get());
    assert_eq!(inner_runs.get(), 0);
    assert!(matches!(once.attempt(|| ()), Attempt::Ready(_)));
}

#[test]
fn two_latchs_are_independent() {
    let first = Once::new();
    let second = Once::new();
    let runs = Cell::new(0u32);
    assert!(matches!(first.attempt(|| runs.set(runs.get() + 1)), Attempt::Ran));
    assert!(matches!(second.attempt(|| runs.set(runs.get() + 10)), Attempt::Ran));
    assert_eq!(runs.get(), 11);
}

/// The blocking call: rounds until one settles, giving way in between.
fn call(once: &Once, counter: &AtomicUsize) {
    let mut init = || {
        let seen = counter.load(Ordering::SeqCst);
        std::hint::spin_loop();
        counter.store(seen + 1, Ordering::SeqCst);
    };
    loop {
        match once.attempt(init) {
            Attempt::Ran | Attempt::Ready(_) => return,
            Attempt::Busy(back) => {
                std::hint::spin_loop();
                init = back;
            }
        }
    }
}

#[test]
fn fifty_callers_initialize_once() {
    let once = Arc::new(Once::new());
    let counter = Arc::new(AtomicUsize::new(0));
    for _ in 0..50 {
        let once = Arc::clone(&once);
        let counter = Arc::clone(&counter);
        call(&once, &counter);
        // Whoever gets here must see the initializer's write.
        assert_eq!(counter.load(Ordering::SeqCst), 1);
    }
    assert_eq!(counter.load(Ordering::SeqCst), 1);
}

#[test]
fn callers_that_arrive_during_initialization_never_run_it() {
    let once = Once::new();
    let counter = AtomicUsize::new(0);
    let turned_away = Cell::new(0u32);
    let round = once.attempt(|| {
        for _ in 0..49 {
            match once.attempt(|| {
                counter.fetch_add(1, Ordering::SeqCst);
            }) {
                Attempt::Busy(_) => turned_away.set(turned_away.get() + 1),
                _ => panic!("a claimed latch must answer Busy"),
            }
        }
        counter.fetch_add(1, Ordering::SeqCst);
    });
    assert!(matches!(round, Attempt::Ran));
    assert_eq!(turned_away.get(), 49);
    assert_eq!(counter.load(Ordering::SeqCst), 1);
    call(&once, &counter);
    assert_eq!(counter.load(Ordering::SeqCst), 1);
}
