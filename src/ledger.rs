//! Bookkeeping of live bytes: how an allocator event moves the count, and
//! the edge rule that decides when a growth reaches the threshold.
use vstd::prelude::*;
use vstd::arithmetic::div_mod::{
    lemma_mod_add_multiples_vanish,
    lemma_mod_sub_multiples_vanish,
    lemma_small_mod,
};

verus! {

/// The threshold that disables the callback.
pub const DISABLED: usize = usize::MAX;

/// What the allocator reports after one of its operations.
#[derive(Clone, Copy, Debug, PartialEq, Eq, Structural)]
pub enum Event {
    /// An allocation (zeroed or not) of `size` bytes.
    Alloc { size: usize, succeeded: bool },
    /// A block of `size` bytes was released.
    Dealloc { size: usize },
    /// A block of `old_size` bytes was resized to `new_size` bytes.
    Realloc { old_size: usize, new_size: usize, succeeded: bool },
}

/// How an event moves the live byte count.
#[derive(Clone, Copy, Debug, PartialEq, Eq, Structural)]
pub enum Change {
    Grow(usize),
    Shrink(usize),
    Unchanged,
}

/// The number of values a `usize` counter can hold; the count wraps around it.
pub open spec fn modulus() -> int {
    usize::MAX as int + 1
}

/// The count after adding `delta` bytes, wrapping as the atomic counter does.
pub open spec fn grown(count: usize, delta: usize) -> usize {
    ((count + delta) % modulus()) as usize
}

/// The count after removing `delta` bytes, wrapping as the atomic counter does.
pub open spec fn shrunk(count: usize, delta: usize) -> usize {
    ((count - delta) % modulus()) as usize
}

/// The change that a successful or failed event makes to the count.
pub open spec fn change_of(event: Event) -> Change {
    match event {
        Event::Alloc { size, succeeded } => if succeeded {
            Change::Grow(size)
        } else {
            Change::Unchanged
        },
        Event::Dealloc { size } => Change::Shrink(size),
        Event::Realloc { old_size, new_size, succeeded } => if !succeeded {
            Change::Unchanged
        } else if new_size > old_size {
            Change::Grow((new_size - old_size) as usize)
        } else {
            Change::Shrink((old_size - new_size) as usize)
        },
    }
}

/// Whether going from `old` to `new` crosses `threshold` from below.
pub open spec fn crosses(old: usize, new: usize, threshold: usize) -> bool {
    old < threshold && threshold <= new
}

/// The byte total handed to the callback when `delta` bytes are added to
/// `old`, or `None` when the growth does not cross `threshold`.
pub open spec fn crossing(old: usize, delta: usize, threshold: usize) -> Option<usize> {
    if crosses(old, grown(old, delta), threshold) {
        Some(grown(old, delta))
    } else {
        None
    }
}

/// The count after `event`, from `count`.
pub open spec fn after(count: usize, event: Event) -> usize {
    match change_of(event) {
        Change::Grow(d) => grown(count, d),
        Change::Shrink(d) => shrunk(count, d),
        Change::Unchanged => count,
    }
}

/// The byte total handed to the callback by `event`, from `count` under
/// `threshold`: only a growth can fire, and only when it crosses.
pub open spec fn fired(count: usize, threshold: usize, event: Event) -> Option<usize> {
    match change_of(event) {
        Change::Grow(d) => crossing(count, d, threshold),
        _ => None,
    }
}

/// The wrapping forms of `+` and `-` on `usize` agree with `grown` and `shrunk`.
pub proof fn lemma_wrapping(count: usize, delta: usize)
    ensures
        grown(count, delta) == vstd::wrapping::usize_specs::wrapping_add(count, delta),
        shrunk(count, delta) == vstd::wrapping::usize_specs::wrapping_sub(count, delta),
{
    let m = modulus();
    let sum = count + delta;
    if sum > usize::MAX {
        lemma_mod_sub_multiples_vanish(sum, m);
        lemma_small_mod((sum - m) as nat, m as nat);
    } else {
        lemma_small_mod(sum as nat, m as nat);
    }
    let diff = count - delta;
    if diff < 0 {
        lemma_mod_add_multiples_vanish(diff, m);
        lemma_small_mod((diff + m) as nat, m as nat);
    } else {
        lemma_small_mod(diff as nat, m as nat);
    }
}

/// The change to the live byte count that `event` makes.
pub fn change(event: Event) -> (r: Change)
    ensures
        r == change_of(event),
{
    match event {
        Event::Alloc { size, succeeded } => {
            if succeeded {
                Change::Grow(size)
            } else {
                Change::Unchanged
            }
        },
        Event::Dealloc { size } => Change::Shrink(size),
        Event::Realloc { old_size, new_size, succeeded } => {
            if !succeeded {
                Change::Unchanged
            } else if new_size > old_size {
                Change::Grow(new_size - old_size)
            } else {
                Change::Shrink(old_size - new_size)
            }
        },
    }
}

/// The edge rule: given the count `old` before a growth of `delta` bytes,
/// returns the new count when the growth crosses `threshold` from below.
pub fn edge(old: usize, delta: usize, threshold: usize) -> (r: Option<usize>)
    ensures
        r == crossing(old, delta, threshold),
{
    proof {
        lemma_wrapping(old, delta);
    }
    let new = old.wrapping_add(delta);
    if new >= threshold && old < threshold {
        Some(new)
    } else {
        None
    }
}

} // verus!
