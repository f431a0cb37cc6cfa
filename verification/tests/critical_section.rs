use std::cell::Cell;

use lazy_section::critical_section::CriticalSection;
use lazy_section::once::Attempt;

/// A stand-in for the operating system's handle: it counts its constructions
/// and knows whether it is held.
struct Handle {
    constructions: Cell<u32>,
    held: Cell<bool>,
    acquisitions: Cell<u32>,
    releases: Cell<u32>,
}

impl Handle {
    fn vacant() -> Handle {
        Handle {
            constructions: Cell::new(0),
            held: Cell::new(false),
            acquisitions: Cell::new(0),
            releases: Cell::new(0),
        }
    }

    fn construct(&self) {
        self.constructions.set(self.constructions.get() + 1);
        self.held.set(false);
    }

    fn acquire(&self) {
        assert_eq!(self.constructions.get(), 1, "acquired a handle that is not constructed");
        assert!(!self.held.get(), "acquired a handle that is held");
        self.held.set(true);
        self.acquisitions.set(self.acquisitions.get() + 1);
    }

    fn release(&self) {
        assert!(self.held.get(), "released a handle that is not held");
        self.held.set(false);
        self.releases.set(self.releases.get() + 1);
    }
}

/// A guard over the stand-in: releases when it goes out of scope.
struct Guard<'a> {
    handle: &'a Handle,
}

impl Drop for Guard<'_> {
    fn drop(&mut self) {
        self.handle.release();
    }
}

fn lock<'a>(section: &CriticalSection, handle: &'a Handle) -> Guard<'a> {
    let mut construct = || handle.construct();
    loop {
        match section.prepare(construct) {
            Attempt::Ran | Attempt::Ready(_) => break,
            Attempt::Busy(back) => {
                std::hint::spin_loop();
                construct = back;
            }
        }
    }
    handle.acquire();
    Guard { handle }
}

#[test]
fn first_preparation_constructs_the_handle() {
    let section = CriticalSection::new();
    let handle = Handle::vacant();
    assert!(matches!(section.prepare(|| handle.construct()), Attempt::Ran));
    assert_eq!(handle.constructions.get(), 1);
}

#[test]
fn later_preparations_leave_the_handle_alone() {
    let section = CriticalSection::new();
    let handle = Handle::vacant();
    assert!(matches!(section.prepare(|| handle.construct()), Attempt::Ran));
    for _ in 0..10 {
        assert!(matches!(section.prepare(|| handle.construct()), Attempt::Ready(_)));
    }
    assert_eq!(handle.constructions.get(), 1);
}

#[test]
fn preparation_during_construction_is_busy() {
    let section = CriticalSection::new();
    let handle = Handle::vacant();
    let turned_away = Cell::new(false);
    let round = section.prepare(|| {
        let nested = section.prepare(|| handle.construct());
        turned_away.set(matches!(nested, Attempt::Busy(_)));
        handle.construct();
    });
    assert!(matches!(round, Attempt::Ran));
    assert!(turned_away.get());
    assert_eq!(handle.constructions.get(), 1);
}

#[test]
fn fifty_lock_cycles_lose_no_update() {
    let section = CriticalSection::new();
    let handle = Handle::vacant();
    let counter = Cell::new(0u32);
    for _ in 0..50 {
        let guard = lock(&section, &handle);
        counter.set(counter.get() + 1);
        drop(guard);
    }
    assert_eq!(counter.get(), 50);
    assert_eq!(handle.constructions.get(), 1);
    assert_eq!(handle.acquisitions.get(), 50);
    assert_eq!(handle.releases.get(), 50);
    assert!(!handle.held.get());
}

fn leaves_early(section: &CriticalSection, handle: &Handle, early: bool) -> u32 {
    let _guard = lock(section, handle);
    if early {
        return 1;
    }
    2
}

#[test]
fn a_guard_releases_on_every_way_out() {
    let section = CriticalSection::new();
    let handle = Handle::vacant();
    assert_eq!(leaves_early(&section, &handle, true), 1);
    assert_eq!(handle.releases.get(), 1);
    assert!(!handle.held.get());
    assert_eq!(leaves_early(&section, &handle, false), 2);
    assert_eq!(handle.releases.get(), 2);
    assert!(!handle.held.get());
    assert_eq!(handle.constructions.get(), 1);
}

#[test]
fn two_sections_construct_their_own_handles() {
    let first = CriticalSection::new();
    let second = CriticalSection::new();
    let a = Handle::vacant();
    let b = Handle::vacant();
    drop(lock(&first, &a));
    drop(lock(&second, &b));
    drop(lock(&first, &a));
    assert_eq!(a.constructions.get(), 1);
    assert_eq!(b.constructions.get(), 1);
    assert_eq!(a.releases.get(), 2);
    assert_eq!(b.releases.get(), 1);
}
