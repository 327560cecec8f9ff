//! A shared-ownership wrapper that runs a one-shot destroy callback exactly
//! when the last counted handle is dropped.
//!
//! Every ordinary clone of a handle raises a shared live-handle counter by
//! one and every ordinary drop lowers it by one; the drop that brings the
//! counter to zero runs the wrapped value's destroy callback once and marks
//! the shared state destroyed. A stealth clone produces a handle that shares
//! the same state but never touches the counter: it observes destruction
//! without keeping the value alive or hastening its end. The counter
//! saturates at both ends, so even a surplus of drops or clones never wraps
//! it around into a false zero.

use vstd::prelude::*;

pub mod lifecycle;
pub mod saturating;

use core::sync::atomic::AtomicBool;
use core::sync::atomic::AtomicUsize;
use core::sync::atomic::Ordering;
use std::sync::Arc;

pub use crate::saturating::SaturatingUsize;

verus! {

/// Clone that stays invisible to the live-handle accounting.
pub trait StealthClone: Sized {
    /// Clone without raising the live-handle counter. A handle made this way
    /// leaves the counter untouched when it is dropped, too.
    fn stealth_clone(&self) -> Self;
}

/// What a value must supply to live inside an [`AtomicDestructor`].
pub trait AtomicDestroyer: Clone {
    /// One-shot cleanup, run when the last counted handle is dropped. The
    /// default does nothing; an implementation overrides it with whatever
    /// must happen then. It runs inside a drop, so it must not unwind.
    fn on_destroy(&self)
        opens_invariants none
        no_unwind
    {
    }
}

/// A handle to a shared value whose destroy callback runs exactly when the
/// last counted handle is dropped.
///
/// All handles cloned from one `new` call share one destroyed flag and one
/// live-handle counter; each handle carries its own clone of the inner value
/// and its own stealth mark.
pub struct AtomicDestructor<T> where T: AtomicDestroyer {
    destroyed: Arc<AtomicBool>,
    counter: Arc<AtomicUsize>,
    stealth: bool,
    inner: T,
}

/// Relies on `core::sync::atomic::AtomicBool::load`, called with the
/// sequentially consistent ordering, for which it never panics. Nothing is
/// assumed of the value read: another handle may raise the flag at any
/// moment.
#[verifier::external_body]
fn load_bool(a: &AtomicBool) -> bool
    opens_invariants none
    no_unwind
{
    a.load(Ordering::SeqCst)
}

/// Relies on `core::sync::atomic::AtomicBool::store`, called with the
/// sequentially consistent ordering, for which it never panics.
#[verifier::external_body]
fn store_bool(a: &AtomicBool, value: bool)
    opens_invariants none
    no_unwind
{
    a.store(value, Ordering::SeqCst)
}

impl<T: AtomicDestroyer> AtomicDestructor<T> {
    /// Whether this handle is excluded from the live-handle accounting.
    pub closed spec fn spec_is_stealth(&self) -> bool {
        self.stealth
    }

    /// The handle's own copy of the wrapped value.
    pub closed spec fn spec_inner(&self) -> T {
        self.inner
    }

    /// Wrap `inner`, creating fresh shared state: live-handle counter at one,
    /// destroyed flag down, and a counted (non-stealth) handle.
    pub fn new(inner: T) -> (r: Self)
        ensures
            !r.spec_is_stealth(),
            r.spec_inner() == inner,
    {
        Self {
            destroyed: Arc::new(AtomicBool::new(false)),
            counter: Arc::new(AtomicUsize::new(1)),
            stealth: false,
            inner,
        }
    }

    /// Advisory read of the shared live-handle counter. Other handles may
    /// change the counter between this read and any later use, so the value
    /// serves observation only, never control decisions.
    pub fn counter(&self) -> usize
        opens_invariants none
        no_unwind
    {
        saturating::load_usize(&*self.counter)
    }

    /// Atomic read of the shared destroyed flag: whether the destroy callback
    /// has run. Stealth handles observe the flag like any other handle.
    pub fn is_destroyed(&self) -> bool
        opens_invariants none
        no_unwind
    {
        load_bool(&*self.destroyed)
    }

    /// Whether this handle is excluded from the live-handle accounting: its
    /// own mark, shared with nobody.
    pub fn is_stealth(&self) -> (r: bool)
        ensures
            r == self.spec_is_stealth(),
        opens_invariants none
        no_unwind
    {
        self.stealth
    }
}

impl<T: AtomicDestroyer> core::ops::Deref for AtomicDestructor<T> {
    type Target = T;

    /// A handle reads through to its own copy of the inner value.
    fn deref(&self) -> (r: &T)
        ensures
            *r == self.spec_inner(),
    {
        &self.inner
    }
}

impl<T: AtomicDestroyer> core::ops::DerefMut for AtomicDestructor<T> {
    /// A handle hands out its own copy of the inner value to mutate; the
    /// stealth mark stays as it was, whatever the caller does to the value.
    fn deref_mut(&mut self) -> (r: &mut T)
        ensures
            *r == old(self).spec_inner(),
            *final(r) == final(self).spec_inner(),
            final(self).spec_is_stealth() == old(self).spec_is_stealth(),
    {
        &mut self.inner
    }
}

impl<T: AtomicDestroyer> Clone for AtomicDestructor<T> {
    /// Ordinary, counted clone: raises the shared counter by one and hands
    /// back a counted (non-stealth) handle — also when `self` is stealth,
    /// since stealth is never inherited through an ordinary clone.
    fn clone(&self) -> (r: Self)
        ensures
            !r.spec_is_stealth(),
            cloned::<T>(self.spec_inner(), r.spec_inner()),
    {
        let _value: usize = saturating::increment(&*self.counter);
        Self {
            destroyed: self.destroyed.clone(),
            counter: self.counter.clone(),
            stealth: false,
            inner: self.inner.clone(),
        }
    }
}

impl<T: AtomicDestroyer> StealthClone for AtomicDestructor<T> {
    /// Uncounted clone: hands back a stealth handle on the same shared state
    /// and leaves the counter untouched.
    fn stealth_clone(&self) -> (r: Self)
        ensures
            r.spec_is_stealth(),
            cloned::<T>(self.spec_inner(), r.spec_inner()),
    {
        Self {
            destroyed: self.destroyed.clone(),
            counter: self.counter.clone(),
            stealth: true,
            inner: self.inner.clone(),
        }
    }
}

impl<T: AtomicDestroyer> Drop for AtomicDestructor<T> {
    /// A counted drop lowers the shared counter by one and, on the step that
    /// reaches zero, runs the destroy callback once and raises the destroyed
    /// flag. A stealth drop, or any drop after destruction, leaves counter,
    /// flag and callback untouched.
    fn drop(&mut self)
        opens_invariants none
        no_unwind
    {
        if self.is_stealth() {
            return;
        }
        if self.is_destroyed() {
            return;
        }
        let value: usize = saturating::decrement(&*self.counter);
        if value == 0 {
            self.inner.on_destroy();
            store_bool(&*self.destroyed, true);
        }
    }
}

} // verus!
