//! The lifecycle state machine of the shared state, as mathematics.
//!
//! Every handle made from one [`crate::AtomicDestructor::new`] call shares
//! one destroyed flag and one live-handle counter; the atomic operations
//! serialize all clones and drops into one total order, and in that order
//! each operation performs exactly one of the steps below. The proof
//! functions here state the laws of that state machine: the invisibility of
//! stealth handles, that a run of counted drops fires the destroy callback
//! exactly once, on the drop that brings the counter to zero, and that a
//! destroyed state absorbs every further drop.

use vstd::prelude::*;

use crate::saturating::saturating_dec;
use crate::saturating::saturating_inc;

verus! {

/// The shared state one constructed wrapper's handles all point at: whether
/// the destroy callback has run, and how many counted handles are live.
pub struct Lifecycle {
    /// Whether the destroy callback has run.
    pub destroyed: bool,
    /// The saturating count of live counted handles.
    pub count: usize,
}

/// The state a fresh wrapper starts in: one live counted handle, callback
/// not yet run.
pub open spec fn initial() -> Lifecycle {
    Lifecycle { destroyed: false, count: 1 }
}

/// What an ordinary, counted clone does to the shared state, whichever
/// handle it starts from: one saturating step up.
pub open spec fn clone_step(s: Lifecycle) -> Lifecycle {
    Lifecycle { destroyed: s.destroyed, count: saturating_inc(s.count) }
}

/// What a stealth clone does to the shared state: nothing.
pub open spec fn stealth_clone_step(s: Lifecycle) -> Lifecycle {
    s
}

/// What dropping a counted handle does: nothing once destroyed; otherwise
/// one saturating step down, and on the step that reaches zero the destroy
/// callback fires — the second component — and the state becomes destroyed.
pub open spec fn drop_step(s: Lifecycle) -> (Lifecycle, bool) {
    if s.destroyed {
        (s, false)
    } else {
        let c = saturating_dec(s.count);
        (Lifecycle { destroyed: c == 0, count: c }, c == 0)
    }
}

/// What dropping a stealth handle does: nothing, and the callback never
/// fires.
pub open spec fn stealth_drop_step(s: Lifecycle) -> (Lifecycle, bool) {
    (s, false)
}

/// `n` counted clones in a row.
pub open spec fn clone_steps(s: Lifecycle, n: nat) -> Lifecycle
    decreases n,
{
    if n == 0 {
        s
    } else {
        clone_step(clone_steps(s, (n - 1) as nat))
    }
}

/// The state after `n` counted drops in a row.
pub open spec fn drop_steps(s: Lifecycle, n: nat) -> Lifecycle
    decreases n,
{
    if n == 0 {
        s
    } else {
        drop_step(drop_steps(s, (n - 1) as nat)).0
    }
}

/// How many of `n` counted drops in a row fire the destroy callback.
pub open spec fn fires_during_drops(s: Lifecycle, n: nat) -> nat
    decreases n,
{
    if n == 0 {
        0
    } else {
        fires_during_drops(s, (n - 1) as nat) + if drop_step(
            drop_steps(s, (n - 1) as nat),
        ).1 {
            1nat
        } else {
            0nat
        }
    }
}

/// Stealth invisibility: a stealth clone and a stealth drop both leave the
/// shared state exactly as it was, and a stealth drop never fires the
/// destroy callback.
pub proof fn lemma_stealth_invisible(s: Lifecycle)
    ensures
        stealth_clone_step(s) == s,
        stealth_drop_step(s).0 == s,
        !stealth_drop_step(s).1,
{
}

/// Idempotent destroy: a destroyed state absorbs any number of further
/// counted drops, and the destroy callback never fires again.
pub proof fn lemma_idempotent_destroy(s: Lifecycle, n: nat)
    requires
        s.destroyed,
    ensures
        drop_steps(s, n) == s,
        fires_during_drops(s, n) == 0,
    decreases n,
{
    if n > 0 {
        lemma_idempotent_destroy(s, (n - 1) as nat);
    }
}

/// A counted clone is undone by the counted drop of the handle it made:
/// short of saturation, and while live and undestroyed, a clone followed by
/// a counted drop returns the shared state to where it stood and fires
/// nothing. A storm of such pairs, serialized by the atomics in any order
/// that keeps each pair's clone before its drop and at least one handle
/// live, therefore leaves the state alone, and only the drop of the last
/// live handle fires the callback.
pub proof fn lemma_clone_then_drop(s: Lifecycle)
    requires
        !s.destroyed,
        0 < s.count < usize::MAX,
    ensures
        drop_step(clone_step(s)).0 == s,
        !drop_step(clone_step(s)).1,
{
}

/// Counted clones count: while the counter is short of saturation, each
/// counted clone raises it by exactly one and leaves the flag alone.
pub proof fn lemma_clones_count(s: Lifecycle, n: nat)
    requires
        s.count + n <= usize::MAX,
    ensures
        clone_steps(s, n) == (Lifecycle {
            destroyed: s.destroyed,
            count: (s.count + n) as usize,
        }),
    decreases n,
{
    if n > 0 {
        lemma_clones_count(s, (n - 1) as nat);
    }
}

/// A clean run of counted drops: from an undestroyed state, each drop short
/// of the count lowers it by exactly one and fires nothing, and the drop
/// that exhausts the count fires the destroy callback — for the first and
/// only time — and leaves the state destroyed with the counter at zero.
pub proof fn lemma_drops_count_down(s: Lifecycle, k: nat)
    requires
        !s.destroyed,
        1 <= s.count,
        k <= s.count,
    ensures
        k < s.count ==> drop_steps(s, k) == (Lifecycle {
            destroyed: false,
            count: (s.count - k) as usize,
        }) && fires_during_drops(s, k) == 0,
        k == s.count ==> drop_steps(s, k) == (Lifecycle { destroyed: true, count: 0 })
            && fires_during_drops(s, k) == 1,
    decreases k,
{
    if k > 0 {
        lemma_drops_count_down(s, (k - 1) as nat);
    }
}

/// Counting correctness: from a fresh state, `n` counted clones bring the
/// counter to `n + 1`; dropping all `n + 1` counted handles fires the
/// destroy callback exactly once — never before the last drop, and exactly
/// on it — and ends destroyed with the counter at zero.
pub proof fn lemma_counting_correctness(n: nat)
    requires
        n < usize::MAX,
    ensures
        ({
            let s = clone_steps(initial(), n);
            &&& s == (Lifecycle { destroyed: false, count: (n + 1) as usize })
            &&& forall|k: nat| k <= n ==> #[trigger] fires_during_drops(s, k) == 0
            &&& drop_step(drop_steps(s, n)).1
            &&& fires_during_drops(s, (n + 1) as nat) == 1
            &&& drop_steps(s, (n + 1) as nat) == (Lifecycle { destroyed: true, count: 0 })
        }),
{
    lemma_clones_count(initial(), n);
    let s = clone_steps(initial(), n);
    assert forall|k: nat| k <= n implies #[trigger] fires_during_drops(s, k) == 0 by {
        lemma_drops_count_down(s, k);
    }
    lemma_drops_count_down(s, n);
    lemma_drops_count_down(s, (n + 1) as nat);
    assert(drop_steps(s, (n + 1) as nat) == drop_step(drop_steps(s, n)).0);
}

} // verus!
