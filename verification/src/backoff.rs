//! Crash-loop backoff: the delay imposed before a failing unit is restarted.
//!
//! A strategy starts at its base delay.  Every delay it hands out is followed
//! by an escalation: the delay is multiplied by the strategy's factor and
//! capped at its ceiling.  A reset returns it to the base delay.  With
//! factor 1 the delay is constant.  The suspension itself is left to the
//! caller, who sleeps for the delay that `next_delay` returns.

use vstd::prelude::*;

verus! {

/// What a backoff strategy is, as numbers: all delays in milliseconds.
pub struct BackoffView {
    pub base: nat,
    pub factor: nat,
    pub cap: nat,
    pub current: nat,
}

impl BackoffView {
    /// The factor escalates or keeps, and the current delay lies between the
    /// base delay and the ceiling.
    pub open spec fn wf(self) -> bool {
        self.factor >= 1 && self.base <= self.current <= self.cap
    }

    /// The strategy after a reset.
    pub open spec fn reset(self) -> BackoffView {
        BackoffView { current: self.base, ..self }
    }

    /// The strategy after one delay was handed out.
    pub open spec fn escalate(self) -> BackoffView {
        BackoffView { current: capped(self.current * self.factor, self.cap), ..self }
    }

    /// The strategy after `n` delays were handed out.
    pub open spec fn escalate_n(self, n: nat) -> BackoffView
        decreases n,
    {
        if n == 0 {
            self
        } else {
            self.escalate().escalate_n((n - 1) as nat)
        }
    }

    /// The delay that the call number `n` of `next_delay` returns, counting
    /// from 0 and with no reset in between.
    pub open spec fn nth_delay(self, n: nat) -> nat {
        self.escalate_n(n).current
    }
}

/// `x`, or `cap` where `x` lies above it.
pub open spec fn capped(x: nat, cap: nat) -> nat {
    if x <= cap {
        x
    } else {
        cap
    }
}

/// `f` multiplied by itself `n` times.
pub open spec fn power(f: nat, n: nat) -> nat
    decreases n,
{
    if n == 0 {
        1
    } else {
        f * power(f, (n - 1) as nat)
    }
}

/// An escalating delay with a ceiling.
#[derive(Debug, Clone, Copy)]
pub struct BackoffStrategy {
    base_ms: u64,
    factor: u64,
    cap_ms: u64,
    current_ms: u64,
}

impl View for BackoffStrategy {
    type V = BackoffView;

    closed spec fn view(&self) -> BackoffView {
        BackoffView {
            base: self.base_ms as nat,
            factor: self.factor as nat,
            cap: self.cap_ms as nat,
            current: self.current_ms as nat,
        }
    }
}

impl BackoffStrategy {
    #[verifier::type_invariant]
    spec fn valid(self) -> bool {
        self@.wf()
    }

    /// A strategy that starts at `base_ms`, multiplies by `factor` after each
    /// delay and never exceeds `cap_ms`.  There is none with factor 0, nor
    /// with a base delay above the ceiling.
    pub fn new(base_ms: u64, factor: u64, cap_ms: u64) -> (made: Option<Self>)
        ensures
            made is Some <==> factor >= 1 && base_ms <= cap_ms,
            made matches Some(s) ==> s@ == (BackoffView {
                base: base_ms as nat,
                factor: factor as nat,
                cap: cap_ms as nat,
                current: base_ms as nat,
            }),
    {
        if factor >= 1 && base_ms <= cap_ms {
            Some(BackoffStrategy { base_ms, factor, cap_ms, current_ms: base_ms })
        } else {
            None
        }
    }

    /// The strategy whose delay is always `delay_ms`.
    pub fn constant(delay_ms: u64) -> (made: Self)
        ensures
            made@ == (BackoffView {
                base: delay_ms as nat,
                factor: 1,
                cap: delay_ms as nat,
                current: delay_ms as nat,
            }),
    {
        BackoffStrategy { base_ms: delay_ms, factor: 1, cap_ms: delay_ms, current_ms: delay_ms }
    }

    /// The delay after a reset.
    pub fn base_delay(&self) -> (ms: u64)
        ensures
            ms == self@.base,
            self@.wf(),
    {
        proof {
            use_type_invariant(self);
        }
        self.base_ms
    }

    /// The ceiling.
    pub fn ceiling(&self) -> (ms: u64)
        ensures
            ms == self@.cap,
            self@.wf(),
    {
        proof {
            use_type_invariant(self);
        }
        self.cap_ms
    }

    /// The delay that the next call of `next_delay` returns.
    pub fn current_delay(&self) -> (ms: u64)
        ensures
            ms == self@.current,
            self@.wf(),
    {
        proof {
            use_type_invariant(self);
        }
        self.current_ms
    }

    /// Returns the strategy to its base delay.
    pub fn reset(&mut self)
        ensures
            final(self)@ == old(self)@.reset(),
            final(self)@.wf(),
    {
        proof {
            use_type_invariant(&*self);
        }
        self.current_ms = self.base_ms;
    }

    /// The delay to wait before the next restart.  The strategy escalates.
    pub fn next_delay(&mut self) -> (ms: u64)
        ensures
            ms == old(self)@.current,
            final(self)@ == old(self)@.escalate(),
            old(self)@.wf(),
            final(self)@.wf(),
    {
        proof {
            use_type_invariant(&*self);
        }
        let delay = self.current_ms;
        let next = match delay.checked_mul(self.factor) {
            Some(product) => if product <= self.cap_ms {
                product
            } else {
                self.cap_ms
            },
            None => self.cap_ms,
        };
        proof {
            lemma_escalate_keeps_wf(self@);
        }
        self.current_ms = next;
        delay
    }
}

/// Escalating keeps a strategy valid and does not lower its delay.
pub proof fn lemma_escalate_keeps_wf(v: BackoffView)
    requires
        v.wf(),
    ensures
        v.escalate().wf(),
        v.current <= v.escalate().current <= v.cap,
        v.escalate().base == v.base,
        v.escalate().factor == v.factor,
        v.escalate().cap == v.cap,
{
    assert(v.current * v.factor >= v.current) by (nonlinear_arith)
        requires
            v.factor >= 1,
    ;
}

/// Any number of escalations keeps a strategy valid and leaves its
/// parameters as they were.
pub proof fn lemma_escalate_n_keeps_wf(v: BackoffView, n: nat)
    requires
        v.wf(),
    ensures
        v.escalate_n(n).wf(),
        v.escalate_n(n).base == v.base,
        v.escalate_n(n).factor == v.factor,
        v.escalate_n(n).cap == v.cap,
        v.escalate_n(n + 1) == v.escalate_n(n).escalate(),
    decreases n,
{
    lemma_escalate_keeps_wf(v);
    assert(v.escalate_n(n + 1) == v.escalate().escalate_n(n));
    if n > 0 {
        lemma_escalate_n_keeps_wf(v.escalate(), (n - 1) as nat);
        assert(v.escalate_n(n) == v.escalate().escalate_n((n - 1) as nat));
    } else {
        assert(v.escalate().escalate_n(0) == v.escalate());
    }
}

/// After a reset the first delay is the base delay, whatever came before.
pub proof fn law_reset_then_delay_is_base(v: BackoffView)
    ensures
        v.reset().nth_delay(0) == v.base,
        v.reset().reset() == v.reset(),
{
}

/// Consecutive delays with no reset in between never decrease, and none
/// exceeds the ceiling.
pub proof fn law_delays_never_decrease(v: BackoffView, i: nat, j: nat)
    requires
        v.wf(),
        i <= j,
    ensures
        v.nth_delay(i) <= v.nth_delay(j) <= v.cap,
    decreases j - i,
{
    lemma_escalate_n_keeps_wf(v, j);
    if i < j {
        lemma_escalate_n_keeps_wf(v, (j - 1) as nat);
        lemma_escalate_keeps_wf(v.escalate_n((j - 1) as nat));
        law_delays_never_decrease(v, i, (j - 1) as nat);
    }
}

/// `power(f, n)` is at least 1 for a factor of at least 1.
pub proof fn lemma_power_positive(f: nat, n: nat)
    requires
        f >= 1,
    ensures
        power(f, n) >= 1,
    decreases n,
{
    if n > 0 {
        lemma_power_positive(f, (n - 1) as nat);
        assert(f * power(f, (n - 1) as nat) >= 1) by (nonlinear_arith)
            requires
                f >= 1,
                power(f, (n - 1) as nat) >= 1,
        ;
    }
}

/// The delay number `n` is the current delay times the factor to the power
/// `n`, capped at the ceiling.
pub proof fn law_delay_is_capped_power(v: BackoffView, n: nat)
    requires
        v.wf(),
    ensures
        v.nth_delay(n) == capped(v.current * power(v.factor, n), v.cap),
    decreases n,
{
    if n == 0 {
        assert(v.current * power(v.factor, 0) == v.current) by (nonlinear_arith)
            requires
                power(v.factor, 0) == 1,
        ;
    } else {
        let m = (n - 1) as nat;
        let w = v.escalate();
        lemma_escalate_keeps_wf(v);
        law_delay_is_capped_power(w, m);
        lemma_power_positive(v.factor, m);
        let p = power(v.factor, m);
        assert(power(v.factor, n) == v.factor * p);
        assert(v.current * (v.factor * p) == (v.current * v.factor) * p) by (nonlinear_arith);
        if v.current * v.factor <= v.cap {
            assert(w.current == v.current * v.factor);
        } else {
            assert(w.current == v.cap);
            assert(v.cap * p >= v.cap) by (nonlinear_arith)
                requires
                    p >= 1,
            ;
            assert((v.current * v.factor) * p >= v.current * v.factor) by (nonlinear_arith)
                requires
                    p >= 1,
            ;
        }
    }
}

} // verus!
