use vstd::prelude::*;
use vstd::arithmetic::power::pow;

verus! {

/// Wait in seconds before the first retry of a pane iteration.
pub const PANE_BACKOFF_BASE: u64 = 2;

/// Longest wait in seconds between two pane iterations.
pub const PANE_BACKOFF_CAP: u64 = 3600;

/// First wait in seconds before reconnecting to the relay server.
pub const RECONNECT_DELAY_INITIAL: u64 = 1;

/// Longest wait in seconds before reconnecting to the relay server.
pub const RECONNECT_DELAY_MAX: u64 = 60;

pub open spec fn min_nat(a: nat, b: nat) -> nat {
    if a < b { a } else { b }
}

/// The wait that follows a wait of `w` when one more failure happens.
pub open spec fn doubled_wait(w: nat, cap: nat) -> nat {
    min_nat(2 * w, cap)
}

/// The wait reached from `base` after `n` failures in a row, one doubling each.
pub open spec fn wait_after_failures(base: nat, cap: nat, n: nat) -> nat
    decreases n,
{
    if n == 0 {
        min_nat(base, cap)
    } else {
        doubled_wait(wait_after_failures(base, cap, (n - 1) as nat), cap)
    }
}

/// An exponential backoff: a wait that doubles on each failure up to a cap
/// and goes back to its base on success.
pub struct Backoff {
    pub base: u64,
    pub cap: u64,
    pub current: u64,
}

impl Backoff {
    pub open spec fn wf(&self) -> bool {
        &&& 0 < self.base <= self.cap
        &&& self.base <= self.current <= self.cap
    }

    /// A backoff that starts at `base` and never waits longer than `cap`.
    pub fn new(base: u64, cap: u64) -> (r: Backoff)
        requires
            0 < base <= cap,
        ensures
            r.wf(),
            r.base == base,
            r.cap == cap,
            r.current == base,
    {
        Backoff { base, cap, current: base }
    }

    /// The backoff of a pane supervisor: 2 s, doubling, at most one hour.
    pub fn for_pane() -> (r: Backoff)
        ensures
            r.wf(),
            r.base == PANE_BACKOFF_BASE,
            r.cap == PANE_BACKOFF_CAP,
            r.current == PANE_BACKOFF_BASE,
    {
        Backoff::new(PANE_BACKOFF_BASE, PANE_BACKOFF_CAP)
    }

    /// The backoff of the connection to the relay server: 1 s, doubling, at most 60 s.
    pub fn for_reconnect() -> (r: Backoff)
        ensures
            r.wf(),
            r.base == RECONNECT_DELAY_INITIAL,
            r.cap == RECONNECT_DELAY_MAX,
            r.current == RECONNECT_DELAY_INITIAL,
    {
        Backoff::new(RECONNECT_DELAY_INITIAL, RECONNECT_DELAY_MAX)
    }

    /// The current wait in seconds.
    pub fn current(&self) -> (r: u64)
        ensures
            r == self.current,
    {
        self.current
    }

    /// Records one more failure: the wait doubles, up to the cap. Returns the new wait.
    pub fn on_failure(&mut self) -> (r: u64)
        requires
            old(self).wf(),
        ensures
            final(self).wf(),
            final(self).base == old(self).base,
            final(self).cap == old(self).cap,
            final(self).current as nat == doubled_wait(old(self).current as nat, old(self).cap as nat),
            r == final(self).current,
    {
        if self.current >= self.cap - self.current {
            self.current = self.cap;
        } else {
            self.current = self.current * 2;
        }
        self.current
    }

    /// Records a success: the wait goes back to its base.
    pub fn reset(&mut self)
        requires
            old(self).wf(),
        ensures
            final(self).wf(),
            final(self).base == old(self).base,
            final(self).cap == old(self).cap,
            final(self).current == old(self).base,
    {
        self.current = self.base;
    }
}

/// Backoff law: starting from the base, `n` consecutive failures (each one a
/// call of `on_failure`) leave the wait at `min(base * 2^n, cap)`; a success
/// (`reset`) brings it back to the base.
pub proof fn lemma_wait_after_failures(base: nat, cap: nat, n: nat)
    requires
        0 < base <= cap,
    ensures
        wait_after_failures(base, cap, n) == min_nat((base * pow(2, n)) as nat, cap),
        base * pow(2, n) >= base,
    decreases n,
{
    reveal(pow);
    if n > 0 {
        lemma_wait_after_failures(base, cap, (n - 1) as nat);
        let p = pow(2, (n - 1) as nat);
        assert(pow(2, n) == 2 * p);
        assert(base * pow(2, n) == 2 * (base * p)) by (nonlinear_arith)
            requires pow(2, n) == 2 * p;
    }
}

} // verus!
