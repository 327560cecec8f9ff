//! Saturating, lock-free arithmetic on a shared atomic counter.
//!
//! The counter clamps at its numeric floor and ceiling instead of wrapping:
//! a decrement of a counter standing at zero, or an increment of one standing
//! at `usize::MAX`, leaves it unchanged. Both operations ride on the
//! compare-and-exchange retry loop of [`AtomicUsize::fetch_update`], so they
//! never block and never lose an update to a concurrent caller; the
//! saturation decision itself is the verified step function handed to it.

use vstd::prelude::*;

use core::sync::atomic::AtomicUsize;
use core::sync::atomic::Ordering;

verus! {

/// The value a saturating increment leaves behind when it observes `v`:
/// one more than `v`, except at the ceiling, which absorbs the step.
pub open spec fn saturating_inc(v: usize) -> usize {
    if v == usize::MAX {
        v
    } else {
        (v + 1) as usize
    }
}

/// The value a saturating decrement leaves behind when it observes `v`:
/// one less than `v`, except at the floor, which absorbs the step.
pub open spec fn saturating_dec(v: usize) -> usize {
    if v == 0 {
        v
    } else {
        (v - 1) as usize
    }
}

/// `n` iterated saturating increments.
pub open spec fn inc_iter(v: usize, n: nat) -> usize
    decreases n,
{
    if n == 0 {
        v
    } else {
        saturating_inc(inc_iter(v, (n - 1) as nat))
    }
}

/// `n` iterated saturating decrements.
pub open spec fn dec_iter(v: usize, n: nat) -> usize
    decreases n,
{
    if n == 0 {
        v
    } else {
        saturating_dec(dec_iter(v, (n - 1) as nat))
    }
}

/// Saturation at the floor: a counter standing at zero stays at zero under
/// any number of decrements.
pub proof fn lemma_saturation_low(n: nat)
    ensures
        dec_iter(0, n) == 0,
    decreases n,
{
    if n > 0 {
        lemma_saturation_low((n - 1) as nat);
    }
}

/// Saturation at the ceiling: a counter standing at its maximum stays there
/// under any number of increments.
pub proof fn lemma_saturation_high(n: nat)
    ensures
        inc_iter(usize::MAX, n) == usize::MAX,
    decreases n,
{
    if n > 0 {
        lemma_saturation_high((n - 1) as nat);
    }
}

/// The step an increment asks the counter to take when it observes `v`:
/// one up, or nothing at the ceiling.
pub(crate) fn increment_step(v: usize) -> (r: Option<usize>)
    ensures
        v == usize::MAX ==> r is None,
        v < usize::MAX ==> r == Some(saturating_inc(v)),
{
    if v == usize::MAX {
        None
    } else {
        Some(v + 1)
    }
}

/// The step a decrement asks the counter to take when it observes `v`:
/// one down, or nothing at the floor.
pub(crate) fn decrement_step(v: usize) -> (r: Option<usize>)
    ensures
        v == 0 ==> r is None,
        v > 0 ==> r == Some(saturating_dec(v)),
{
    if v == 0 {
        None
    } else {
        Some(v - 1)
    }
}

/// Relies on `core::sync::atomic::AtomicUsize::load`, called with the
/// sequentially consistent ordering, for which it never panics. Nothing is
/// assumed of the value read: other threads may change the counter at any
/// moment, so every `usize` is a possible result.
#[verifier::external_body]
pub(crate) fn load_usize(a: &AtomicUsize) -> usize
    opens_invariants none
    no_unwind
{
    a.load(Ordering::SeqCst)
}

/// Relies on `core::sync::atomic::AtomicUsize::fetch_update`, called with
/// sequentially consistent orderings, for which it never panics. It retries
/// a compare-and-exchange until it either installs the value the step
/// returned for the current value, and hands that current value back as
/// `Ok`, or sees the step decline — only at `usize::MAX`, by the step's
/// contract — and hands the current value back as `Err`.
#[verifier::external_body]
fn fetch_update_increment(a: &AtomicUsize) -> (r: Result<usize, usize>)
    ensures
        r matches Ok(prev) ==> prev < usize::MAX,
        r matches Err(prev) ==> prev == usize::MAX,
    opens_invariants none
    no_unwind
{
    a.fetch_update(Ordering::SeqCst, Ordering::SeqCst, |v| increment_step(v))
}

/// Relies on `core::sync::atomic::AtomicUsize::fetch_update`, called with
/// sequentially consistent orderings, for which it never panics. It retries
/// a compare-and-exchange until it either installs the value the step
/// returned for the current value, and hands that current value back as
/// `Ok`, or sees the step decline — only at zero, by the step's contract —
/// and hands the current value back as `Err`.
#[verifier::external_body]
fn fetch_update_decrement(a: &AtomicUsize) -> (r: Result<usize, usize>)
    ensures
        r matches Ok(prev) ==> prev > 0,
        r matches Err(prev) ==> prev == 0,
    opens_invariants none
    no_unwind
{
    a.fetch_update(Ordering::SeqCst, Ordering::SeqCst, |v| decrement_step(v))
}

/// The saturating increment behind
/// [`SaturatingUsize::saturating_increment`]: one atomic saturating step up
/// from the value the exchange caught, whose successor — or `usize::MAX`
/// itself, unchanged — it returns.
pub fn increment(a: &AtomicUsize) -> (r: usize)
    ensures
        exists|prev: usize| r == saturating_inc(prev),
    opens_invariants none
    no_unwind
{
    match fetch_update_increment(a) {
        Ok(prev) => {
            proof {
                assert(prev + 1 == saturating_inc(prev));
            }
            prev + 1
        },
        Err(prev) => {
            proof {
                assert(prev == saturating_inc(prev));
            }
            prev
        },
    }
}

/// The saturating decrement behind
/// [`SaturatingUsize::saturating_decrement`]: one atomic saturating step
/// down from the value the exchange caught, whose predecessor — or zero
/// itself, unchanged — it returns.
pub fn decrement(a: &AtomicUsize) -> (r: usize)
    ensures
        exists|prev: usize| r == saturating_dec(prev),
    opens_invariants none
    no_unwind
{
    match fetch_update_decrement(a) {
        Ok(prev) => {
            proof {
                assert(prev - 1 == saturating_dec(prev));
            }
            prev - 1
        },
        Err(prev) => {
            proof {
                assert(prev == saturating_dec(prev));
            }
            prev
        },
    }
}

/// Saturating increment and decrement for an atomic counter shared between
/// threads.
pub trait SaturatingUsize {
    /// Atomically advance the counter by one, leaving it unchanged at
    /// `usize::MAX`. Returns the value the call left behind: a saturating
    /// step up from some observed value, never zero.
    fn saturating_increment(&self) -> (r: usize)
        ensures
            exists|prev: usize| r == saturating_inc(prev),
    ;

    /// Atomically lower the counter by one, leaving it unchanged at zero.
    /// Returns the value the call left behind: a saturating step down from
    /// some observed value, never `usize::MAX`.
    fn saturating_decrement(&self) -> (r: usize)
        ensures
            exists|prev: usize| r == saturating_dec(prev),
    ;
}

impl SaturatingUsize for AtomicUsize {
    fn saturating_increment(&self) -> (r: usize) {
        increment(self)
    }

    fn saturating_decrement(&self) -> (r: usize) {
        decrement(self)
    }
}

} // verus!
