use vstd::prelude::*;

use crate::delay::Delay;

verus! {

/// The largest delay that a growing strategy hands out: its values saturate here.
pub open spec fn saturate(x: int) -> nat {
    if x > u64::MAX {
        u64::MAX as nat
    } else if x < 0 {
        0
    } else {
        x as nat
    }
}

/// `b` raised to the power `e`.
pub open spec fn power(b: nat, e: nat) -> nat
    decreases e,
{
    if e == 0 {
        1
    } else {
        b * power(b, (e - 1) as nat)
    }
}

/// The Fibonacci numbers, with the starting pair `fib(0) == 1` and `fib(1) == 1`.
pub open spec fn fib(k: nat) -> nat
    decreases k,
{
    if k < 2 {
        1
    } else {
        fib((k - 2) as nat) + fib((k - 1) as nat)
    }
}

/// A pull-based producer of wait durations: each pull yields the next delay,
/// or `None` once the sequence has ended.
pub trait Backoff: Sized {
    /// Whether the internal state is consistent.
    spec fn inv(&self) -> bool;

    /// The delay that the `k`-th pull from this state yields (counting from 0),
    /// or `None` when the sequence ends before it.
    spec fn upcoming(&self, k: nat) -> Option<Delay>;

    /// Pulls the next delay.
    fn next_delay(&mut self) -> (r: Option<Delay>)
        requires
            old(self).inv(),
        ensures
            final(self).inv(),
            r == old(self).upcoming(0),
            forall|k: nat| #[trigger] final(self).upcoming(k) == old(self).upcoming(k + 1),
    ;
}

/// Every pull yields the same delay; never ends.
#[derive(Debug, Clone, Copy, PartialEq, Eq, Structural)]
pub struct Fixed {
    pub delay: Delay,
}

impl Fixed {
    pub fn new(delay: Delay) -> (r: Fixed)
        ensures
            r.inv(),
            forall|k: nat| #[trigger] r.upcoming(k) == Some(delay),
    {
        Fixed { delay }
    }
}

impl Backoff for Fixed {
    open spec fn inv(&self) -> bool {
        true
    }

    open spec fn upcoming(&self, k: nat) -> Option<Delay> {
        Some(self.delay)
    }

    fn next_delay(&mut self) -> (r: Option<Delay>) {
        Some(self.delay)
    }
}

/// Every pull yields a zero delay; never ends.
#[derive(Debug, Clone, Copy, PartialEq, Eq, Structural)]
pub struct NoDelay {}

impl NoDelay {
    pub fn new() -> (r: NoDelay)
        ensures
            r.inv(),
            forall|k: nat| #[trigger] r.upcoming(k) == Some(Delay { nanos: 0 }),
    {
        NoDelay {}
    }
}

impl Backoff for NoDelay {
    open spec fn inv(&self) -> bool {
        true
    }

    open spec fn upcoming(&self, k: nat) -> Option<Delay> {
        Some(Delay { nanos: 0 })
    }

    fn next_delay(&mut self) -> (r: Option<Delay>) {
        Some(Delay::zero())
    }
}

proof fn lemma_saturate_mul(x: int, y: int)
    requires
        x >= 0,
        y >= 0,
    ensures
        saturate(saturate(x) * y) == saturate(x * y),
{
    if x > u64::MAX && y > 0 {
        assert(saturate(x) * y >= u64::MAX) by (nonlinear_arith)
            requires
                saturate(x) == u64::MAX,
                y >= 1,
        ;
        assert(x * y >= u64::MAX) by (nonlinear_arith)
            requires
                x > u64::MAX,
                y >= 1,
        ;
    }
}

proof fn lemma_saturate_add(x: int, y: int)
    requires
        x >= 0,
        y >= 0,
    ensures
        saturate(saturate(x) + saturate(y) as int) == saturate(x + y),
{
}

/// The `k`-th pull yields `base * factor^k`, saturating at the largest delay; never ends.
pub struct Exponential {
    base: Delay,
    factor: u64,
    current: u64,
    pulled: Ghost<nat>,
}

impl Exponential {
    pub closed spec fn base(&self) -> Delay {
        self.base
    }

    pub closed spec fn factor(&self) -> u64 {
        self.factor
    }

    /// How many delays have been pulled since construction.
    pub closed spec fn pulled(&self) -> nat {
        self.pulled@
    }

    pub fn new(base: Delay, factor: u64) -> (r: Exponential)
        ensures
            r.inv(),
            r.base() == base,
            r.factor() == factor,
            forall|k: nat| #[trigger]
                r.upcoming(k) == Some(Delay { nanos: saturate(base.nanos * power(factor as nat, k)) as u64 }),
    {
        let r = Exponential { base, factor, current: base.nanos, pulled: Ghost(0) };
        assert(power(factor as nat, 0) == 1);
        assert(base.nanos * power(factor as nat, 0) == base.nanos);
        assert(r.inv());
        r
    }
}

impl Backoff for Exponential {
    closed spec fn inv(&self) -> bool {
        self.current == saturate(self.base.nanos * power(self.factor as nat, self.pulled@))
    }

    open spec fn upcoming(&self, k: nat) -> Option<Delay> {
        Some(Delay { nanos: saturate(self.base().nanos * power(self.factor() as nat, self.pulled() + k)) as u64 })
    }

    fn next_delay(&mut self) -> (r: Option<Delay>) {
        let r = Some(Delay { nanos: self.current });
        let next = match self.current.checked_mul(self.factor) {
            Some(v) => v,
            None => u64::MAX,
        };
        proof {
            let x = self.base.nanos * power(self.factor as nat, self.pulled@);
            assert(x >= 0) by (nonlinear_arith)
                requires
                    x == self.base.nanos * power(self.factor as nat, self.pulled@),
            ;
            lemma_saturate_mul(x, self.factor as int);
            assert(x * self.factor == self.base.nanos * power(self.factor as nat, self.pulled@ + 1)) by (nonlinear_arith)
                requires
                    x == self.base.nanos * power(self.factor as nat, self.pulled@),
                    power(self.factor as nat, self.pulled@ + 1) == self.factor * power(self.factor as nat, self.pulled@),
            ;
        }
        self.current = next;
        self.pulled = Ghost(self.pulled@ + 1);
        proof {
            assert forall|k: nat| #[trigger] self.upcoming(k) == old(self).upcoming(k + 1) by {
                assert(self.pulled@ + k == old(self).pulled@ + (k + 1));
            }
        }
        r
    }
}

/// The `k`-th pull yields `base * fib(k)`, saturating at the largest delay; never ends.
pub struct Fibonacci {
    base: Delay,
    current: u64,
    next: u64,
    pulled: Ghost<nat>,
}

impl Fibonacci {
    pub closed spec fn base(&self) -> Delay {
        self.base
    }

    /// How many delays have been pulled since construction.
    pub closed spec fn pulled(&self) -> nat {
        self.pulled@
    }

    pub fn new(base: Delay) -> (r: Fibonacci)
        ensures
            r.inv(),
            r.base() == base,
            forall|k: nat| #[trigger]
                r.upcoming(k) == Some(Delay { nanos: saturate(base.nanos * fib(k)) as u64 }),
    {
        let r = Fibonacci { base, current: base.nanos, next: base.nanos, pulled: Ghost(0) };
        assert(fib(0) == 1 && fib(1) == 1);
        assert(base.nanos * fib(0) == base.nanos);
        assert(base.nanos * fib(1) == base.nanos);
        assert(r.inv());
        r
    }
}

impl Backoff for Fibonacci {
    closed spec fn inv(&self) -> bool {
        &&& self.current == saturate(self.base.nanos * fib(self.pulled@))
        &&& self.next == saturate(self.base.nanos * fib(self.pulled@ + 1))
    }

    open spec fn upcoming(&self, k: nat) -> Option<Delay> {
        Some(Delay { nanos: saturate(self.base().nanos * fib(self.pulled() + k)) as u64 })
    }

    fn next_delay(&mut self) -> (r: Option<Delay>) {
        let r = Some(Delay { nanos: self.current });
        let after = self.current.saturating_add(self.next);
        proof {
            let p = self.pulled@;
            let a = self.base.nanos * fib(p);
            let b = self.base.nanos * fib(p + 1);
            assert(fib(p + 2) == fib(p) + fib(p + 1));
            assert(a + b == self.base.nanos * fib(p + 2) && a >= 0 && b >= 0) by (nonlinear_arith)
                requires
                    a == self.base.nanos * fib(p),
                    b == self.base.nanos * fib(p + 1),
                    fib(p + 2) == fib(p) + fib(p + 1),
            ;
            lemma_saturate_add(a, b);
        }
        self.current = self.next;
        self.next = after;
        self.pulled = Ghost(self.pulled@ + 1);
        proof {
            assert forall|k: nat| #[trigger] self.upcoming(k) == old(self).upcoming(k + 1) by {
                assert(self.pulled@ + k == old(self).pulled@ + (k + 1));
            }
        }
        r
    }
}

/// An explicit, finite list of delays: each pull yields the next one in order,
/// then `None` once the list is used up.
pub struct Explicit {
    delays: Vec<Delay>,
    next: usize,
}

impl Explicit {
    /// The whole list.
    pub closed spec fn delays(&self) -> Seq<Delay> {
        self.delays@
    }

    /// The position of the next delay to hand out.
    pub closed spec fn position(&self) -> nat {
        self.next as nat
    }

    /// How many delays are left to hand out.
    pub open spec fn remaining(&self) -> nat {
        (self.delays().len() - self.position()) as nat
    }

    pub fn new(delays: Vec<Delay>) -> (r: Explicit)
        ensures
            r.inv(),
            r.delays() == delays@,
            r.position() == 0,
            r.remaining() == delays@.len(),
            forall|k: nat| #[trigger]
                r.upcoming(k) == if k < delays@.len() {
                    Some(delays@[k as int])
                } else {
                    None
                },
    {
        Explicit { delays, next: 0 }
    }
}

impl Backoff for Explicit {
    open spec fn inv(&self) -> bool {
        self.position() <= self.delays().len()
    }

    open spec fn upcoming(&self, k: nat) -> Option<Delay> {
        if self.position() + k < self.delays().len() {
            Some(self.delays()[self.position() + k as int])
        } else {
            None
        }
    }

    fn next_delay(&mut self) -> (r: Option<Delay>) {
        if self.next < self.delays.len() {
            let d = self.delays[self.next];
            self.next = self.next + 1;
            Some(d)
        } else {
            None
        }
    }
}

} // verus!
