//! The liveness guard: bounded-retry acquisition of a module's execution
//! lock, with a forced interrupt when the bound is exhausted.
//!
//! Before an active module is retired, its execution lock is tried a fixed
//! number of times, with a short sleep between attempts. If the module never
//! yields the lock, one interrupt signal is sent to its execution context
//! and the swap proceeds regardless, so replacing a module never blocks
//! indefinitely.
use vstd::prelude::*;

verus! {

/// How many times the execution lock is tried before giving up.
pub const MAX_LOCK_ATTEMPTS: u64 = 100;

/// How long the caller's runtime shell sleeps between two attempts, in
/// milliseconds.
pub const RETRY_SLEEP_MILLIS: u64 = 1;

/// True when some attempt among the first `bound` would acquire the lock.
pub open spec fn acquires_within(outcomes: Seq<bool>, bound: int) -> bool {
    exists|i: int| 0 <= i < bound && outcomes[i]
}

/// How one whole swap attempt ended.
pub struct SwapResolution {
    /// Whether the execution lock was acquired within the bound.
    pub acquired: bool,
    /// How many lock attempts were made.
    pub attempts: u64,
    /// Whether the forced interrupt was issued; it is issued at most once
    /// per swap attempt, exactly when the lock was never acquired.
    pub interrupted: bool,
}

/// Resolve one swap attempt against a stalled or cooperating module.
///
/// `outcomes[i]` is what lock attempt number `i` would return (true when the
/// module has released its execution lock at that point). The resolution
/// stops at the first successful attempt; after `MAX_LOCK_ATTEMPTS` failures
/// it gives up and asks for exactly one interrupt, so the swap completes
/// within the bounded window whatever the module does.
#[verifier::loop_isolation(false)]
pub fn resolve_swap(outcomes: &Vec<bool>) -> (r: SwapResolution)
    requires
        outcomes@.len() >= MAX_LOCK_ATTEMPTS,
    ensures
        r.acquired == acquires_within(outcomes@, MAX_LOCK_ATTEMPTS as int),
        r.interrupted == !r.acquired,
        r.attempts <= MAX_LOCK_ATTEMPTS,
        r.acquired ==> 0 < r.attempts && outcomes@[r.attempts - 1] && forall|j: int|
            0 <= j < r.attempts - 1 ==> !outcomes@[j],
        !r.acquired ==> r.attempts == MAX_LOCK_ATTEMPTS,
{
    let mut i: u64 = 0;
    while i < MAX_LOCK_ATTEMPTS
        invariant
            0 <= i <= MAX_LOCK_ATTEMPTS,
            forall|j: int| 0 <= j < i ==> !outcomes@[j],
        decreases MAX_LOCK_ATTEMPTS - i,
    {
        if outcomes[i as usize] {
            return SwapResolution { acquired: true, attempts: i + 1, interrupted: false };
        }
        i = i + 1;
    }
    SwapResolution { acquired: false, attempts: MAX_LOCK_ATTEMPTS, interrupted: true }
}

/// A module that never releases its execution lock cannot stall a swap: the
/// resolution makes exactly the bounded number of attempts, acquires
/// nothing, and issues the one forced interrupt.
pub proof fn lemma_stalled_module_is_interrupted(outcomes: Seq<bool>)
    requires
        outcomes.len() >= MAX_LOCK_ATTEMPTS,
        forall|i: int| 0 <= i < MAX_LOCK_ATTEMPTS ==> !outcomes[i],
    ensures
        !acquires_within(outcomes, MAX_LOCK_ATTEMPTS as int),
{
}

} // verus!
