//! The shared wrapper: the allocator it wraps, the live byte counter, the
//! threshold and the write-once callback slot.
use std::sync::atomic::{AtomicUsize, Ordering};
use std::sync::OnceLock;
use vstd::prelude::*;
use crate::ledger::{change, crossing, edge, fired, Change, Event, DISABLED};

verus! {

#[verifier::external_type_specification]
#[verifier::external_body]
#[verifier::reject_recursive_types(T)]
pub struct ExOnceLock<T>(OnceLock<T>);

/// Relies on `OnceLock::new`: an empty slot.
pub assume_specification<T>[ OnceLock::<T>::new ]() -> OnceLock<T>;

/// Relies on `OnceLock::get`: the stored value, if any.
pub assume_specification<T>[ OnceLock::<T>::get ](cell: &OnceLock<T>) -> Option<&T>;

/// Relies on `OnceLock::set`: when the slot is already full, the value
/// handed in comes back unstored.
pub assume_specification<T>[ OnceLock::<T>::set ](cell: &OnceLock<T>, value: T) -> (r: Result<(), T>)
    ensures
        r matches Err(v) ==> v == value,
;

/// A function of the byte total, shared by every thread that allocates.
pub trait Callback: Send + Sync {
    fn call(&self, allocated: usize);
}

/// Relies on `Fn::call`: hands the byte total to the closure, whose
/// behaviour is its author's.
#[verifier::external_body]
fn invoke<F: Fn(usize)>(f: &F, allocated: usize) {
    f(allocated)
}

impl<F: Fn(usize) + Send + Sync> Callback for F {
    fn call(&self, allocated: usize) {
        invoke(self, allocated)
    }
}

/// A callback was already registered; the new one was not stored.
#[derive(Clone, Copy, Debug, PartialEq, Eq, Structural)]
pub struct AlreadyRegistered;

/// Wraps an allocator, counts the bytes it has live and calls back when
/// that count crosses the threshold from below. The counters are atomics
/// whose values no contract can follow across threads; the rules they apply
/// are `ledger::change` and `ledger::edge`, and `laws` states what those
/// rules give over a sequential trace.
pub struct Thresher<A> {
    allocator: A,
    allocated: AtomicUsize,
    threshold: AtomicUsize,
    callback: OnceLock<Box<dyn Callback>>,
}

impl<A> Thresher<A> {
    /// The wrapped allocator.
    pub closed spec fn wrapped(&self) -> A {
        self.allocator
    }

    /// A wrapper around `allocator` with no bytes counted, the threshold
    /// disabled and no callback.
    pub fn new(allocator: A) -> (r: Self)
        ensures
            r.wrapped() == allocator,
    {
        Thresher {
            allocator,
            allocated: AtomicUsize::new(0),
            threshold: AtomicUsize::new(DISABLED),
            callback: OnceLock::new(),
        }
    }

    /// The allocator that does the real work.
    pub fn allocator(&self) -> (r: &A)
        ensures
            *r == self.wrapped(),
    {
        &self.allocator
    }

    /// The live byte count at the moment of reading.
    pub fn allocated(&self) -> usize {
        self.allocated.load(Ordering::Acquire)
    }

    /// Replaces the threshold; `DISABLED` turns the callback off.
    pub fn set_threshold(&self, threshold: usize) {
        self.threshold.store(threshold, Ordering::Release);
    }

    /// Registers the callback. Only the first registration is kept: a later
    /// one is a misuse, reported as `AlreadyRegistered`.
    pub fn set_callback<F>(&self, callback: F) -> (r: Result<(), AlreadyRegistered>)
        where
            F: Fn(usize) + Send + Sync + 'static,
    {
        let boxed: Box<dyn Callback> = Box::new(callback);
        match self.callback.set(boxed) {
            Ok(()) => Ok(()),
            Err(_) => Err(AlreadyRegistered),
        }
    }

    /// Adds `allocation_size` bytes to the count and calls back when the
    /// growth crosses the threshold. Returns the byte total handed to the
    /// callback; it is the count after a growth that crossed the threshold
    /// from below, whatever the count and threshold were at that moment.
    pub fn maybe_callback(&self, allocation_size: usize) -> (r: Option<usize>)
        ensures
            r matches Some(n) ==> exists|old: usize, threshold: usize|
                crossing(old, allocation_size, threshold) == Some(n),
    {
        let threshold = self.threshold.load(Ordering::Acquire);
        let old_allocated = self.allocated.fetch_add(allocation_size, Ordering::Release);
        match edge(old_allocated, allocation_size, threshold) {
            Some(new_allocated) => match self.callback.get() {
                Some(cb) => {
                    cb.call(new_allocated);
                    Some(new_allocated)
                },
                None => None,
            },
            None => None,
        }
    }

    /// Books what the allocator reports: a growth goes through the edge
    /// rule, a shrink is subtracted without a check, a failure changes
    /// nothing. Returns the byte total handed to the callback.
    pub fn record(&self, event: Event) -> (r: Option<usize>)
        ensures
            r matches Some(n) ==> exists|old: usize, threshold: usize|
                fired(old, threshold, event) == Some(n),
    {
        match change(event) {
            Change::Grow(delta) => {
                let r = self.maybe_callback(delta);
                proof {
                    if let Some(n) = r {
                        let (old, threshold) = choose|old: usize, threshold: usize|
                            crossing(old, delta, threshold) == Some(n);
                        assert(fired(old, threshold, event) == Some(n));
                    }
                }
                r
            },
            Change::Shrink(delta) => {
                self.allocated.fetch_sub(delta, Ordering::Release);
                None
            },
            Change::Unchanged => None,
        }
    }
}

} // verus!
