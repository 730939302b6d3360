//! The decision core of the retry driver.
//!
//! A [`RetryPolicy`] fixes an exponential backoff schedule: the first retry
//! waits `min_delay_ms`, each further retry multiplies the wait by `factor`,
//! the wait never passes `max_delay_ms`, and at most `max_times` retries are
//! made.  The driver loop asks [`RetryPolicy::next_delay`] after every
//! failure: `Some(d)` means sleep `d` milliseconds and try again, `None`
//! means give up and surface the last error.

use vstd::prelude::*;

use crate::error::PromptError;
use crate::error::RandAgentError;

verus! {

/// An exponential backoff schedule.
#[derive(Debug, Clone, Copy)]
pub struct RetryPolicy {
    /// The wait before the first retry, in milliseconds.
    pub min_delay_ms: u64,
    /// Each further retry multiplies the previous wait by this factor.
    pub factor: u64,
    /// The wait never passes this, when present.
    pub max_delay_ms: Option<u64>,
    /// How many retries are allowed, when present; the total number of
    /// attempts is one more.
    pub max_times: Option<usize>,
}

/// The uncapped wait before retry number `retries_done + 1`:
/// `min_delay_ms * factor ^ retries_done`.
pub open spec fn spec_raw_delay(min_delay_ms: nat, factor: nat, retries_done: nat) -> nat
    decreases retries_done,
{
    if retries_done == 0 {
        min_delay_ms
    } else {
        spec_raw_delay(min_delay_ms, factor, (retries_done - 1) as nat) * factor
    }
}

impl RetryPolicy {
    /// A factor below one would shrink the schedule, and a floor above the
    /// ceiling would make the first wait break the cap.
    pub open spec fn wf(&self) -> bool {
        &&& self.factor >= 1
        &&& (self.max_delay_ms matches Some(c) ==> self.min_delay_ms <= c)
    }

    /// The largest wait this policy ever asks for.
    pub open spec fn spec_cap(&self) -> nat {
        match self.max_delay_ms {
            Option::Some(c) => c as nat,
            Option::None => u64::MAX as nat,
        }
    }

    /// The wait before retry number `retries_done + 1`: the exponential
    /// value, held at the cap once it passes it.
    pub open spec fn spec_delay(&self, retries_done: nat) -> nat {
        let raw = spec_raw_delay(self.min_delay_ms as nat, self.factor as nat, retries_done);
        if raw <= self.spec_cap() {
            raw
        } else {
            self.spec_cap()
        }
    }

    /// The defaults of the schedule: one second floor, one minute cap,
    /// doubling, three retries.
    pub fn new() -> (r: Self)
        ensures
            r == (RetryPolicy {
                min_delay_ms: 1000u64,
                factor: 2u64,
                max_delay_ms: Some(60000u64),
                max_times: Some(3usize),
            }),
            r.wf(),
    {
        RetryPolicy {
            min_delay_ms: 1000,
            factor: 2,
            max_delay_ms: Some(60000),
            max_times: Some(3),
        }
    }

    /// Allow exactly `times` retries.
    pub fn with_max_times(self, times: usize) -> (r: Self)
        ensures
            r == (RetryPolicy { max_times: Some(times), ..self }),
    {
        RetryPolicy { max_times: Some(times), ..self }
    }

    /// The wait, in milliseconds, before retry number `retries_done + 1`.
    pub fn delay_before_retry(&self, retries_done: usize) -> (r: u64)
        requires
            self.wf(),
        ensures
            r == self.spec_delay(retries_done as nat),
    {
        let cap: u64 = match self.max_delay_ms {
            Option::Some(c) => c,
            Option::None => u64::MAX,
        };
        let mut d: u64 = self.min_delay_ms;
        let mut i: usize = 0;
        while i < retries_done
            invariant
                self.wf(),
                i <= retries_done,
                cap as nat == self.spec_cap(),
                d == self.spec_delay(i as nat),
            decreases retries_done - i,
        {
            let ghost raw_i = spec_raw_delay(
                self.min_delay_ms as nat,
                self.factor as nat,
                i as nat,
            );
            proof {
                lemma_backoff_step(d as nat, self.factor as nat, cap as nat, raw_i);
            }
            if d <= cap / self.factor {
                d = d * self.factor;
            } else {
                d = cap;
            }
            i = i + 1;
        }
        d
    }

    /// The driver's decision after a failed attempt with `retries_done`
    /// retries already made: wait this many milliseconds and try again, or
    /// give up because the retry budget is spent.
    pub fn next_delay(&self, retries_done: usize) -> (r: Option<u64>)
        requires
            self.wf(),
        ensures
            match self.max_times {
                Option::Some(m) => r is Some <==> retries_done < m,
                Option::None => r is Some,
            },
            r matches Some(d) ==> d == self.spec_delay(retries_done as nat),
    {
        match self.max_times {
            Option::Some(m) => {
                if retries_done < m {
                    Some(self.delay_before_retry(retries_done))
                } else {
                    None
                }
            },
            Option::None => Some(self.delay_before_retry(retries_done)),
        }
    }
}

impl RetryPolicy {
    /// The whole decision the driver makes after a failed attempt: either
    /// the wait before the next one, or the failure itself wrapped for the
    /// caller because the retry budget is spent.
    pub fn resolve_failure(&self, retries_done: usize, error: PromptError) -> (r: Result<
        u64,
        RandAgentError,
    >)
        requires
            self.wf(),
        ensures
            match self.max_times {
                Option::Some(m) => r is Ok <==> retries_done < m,
                Option::None => r is Ok,
            },
            r matches Ok(d) ==> d == self.spec_delay(retries_done as nat),
            r matches Err(e) ==> e == RandAgentError::AgentError(error),
    {
        match self.next_delay(retries_done) {
            Option::Some(delay) => Ok(delay),
            Option::None => Err(RandAgentError::AgentError(error)),
        }
    }
}

impl Default for RetryPolicy {
    fn default() -> (r: Self)
        ensures
            r == (RetryPolicy {
                min_delay_ms: 1000u64,
                factor: 2u64,
                max_delay_ms: Some(60000u64),
                max_times: Some(3usize),
            }),
    {
        Self::new()
    }
}

/// One step of the capped exponential schedule: from the capped wait `prev`
/// for some retry, the division test used by the executable loop lands on
/// the capped wait for the next retry, and never overflows past `cap`.
proof fn lemma_backoff_step(prev: nat, factor: nat, cap: nat, raw: nat)
    requires
        factor >= 1,
        prev == if raw <= cap {
            raw
        } else {
            cap
        },
    ensures
        prev <= cap / factor ==> prev * factor <= cap,
        (if prev <= cap / factor {
            (prev * factor) as int
        } else {
            cap as int
        }) == (if raw * factor <= cap {
            (raw * factor) as int
        } else {
            cap as int
        }),
{
    let q = cap / factor;
    vstd::arithmetic::div_mod::lemma_fundamental_div_mod(cap as int, factor as int);
    vstd::arithmetic::div_mod::lemma_mod_bound(cap as int, factor as int);
    assert(factor * q + cap % factor == cap);
    vstd::arithmetic::mul::lemma_mul_is_commutative(factor as int, q as int);
    if prev <= q {
        vstd::arithmetic::mul::lemma_mul_inequality(prev as int, q as int, factor as int);
        assert(prev * factor <= q * factor);
        assert(q * factor <= cap);
    } else {
        vstd::arithmetic::mul::lemma_mul_inequality(q as int + 1, prev as int, factor as int);
        assert((q as int + 1) * factor <= prev as int * factor);
        vstd::arithmetic::mul::lemma_mul_is_distributive_add_other_way(
            factor as int,
            q as int,
            1,
        );
        assert((q as int + 1) * factor == q as int * factor + factor);
        assert(prev * factor > cap);
    }
    vstd::arithmetic::mul::lemma_mul_inequality(1, factor as int, raw as int);
    vstd::arithmetic::mul::lemma_mul_is_commutative(factor as int, raw as int);
    assert(raw * factor >= raw);
    if raw <= cap {
        assert(prev == raw);
    } else {
        assert(prev == cap);
        assert(raw * factor >= raw > cap);
        if prev <= q {
            // cap <= cap / factor forces cap * factor == cap.
            vstd::arithmetic::mul::lemma_mul_inequality(1, factor as int, cap as int);
            vstd::arithmetic::mul::lemma_mul_is_commutative(factor as int, cap as int);
            assert(cap * factor >= cap);
            assert(prev * factor <= cap);
        }
    }
}

/// Waits never shrink along the schedule: each retry waits at least as long
/// as the one before it.
pub proof fn lemma_delay_monotonic(p: RetryPolicy, retries_done: nat)
    requires
        p.wf(),
    ensures
        p.spec_delay(retries_done) <= p.spec_delay(retries_done + 1),
{
    let raw_i = spec_raw_delay(p.min_delay_ms as nat, p.factor as nat, retries_done);
    let raw_next = spec_raw_delay(p.min_delay_ms as nat, p.factor as nat, retries_done + 1);
    assert(raw_next == raw_i * p.factor);
    assert(raw_i * p.factor >= raw_i * 1) by (nonlinear_arith)
        requires
            p.factor >= 1,
            raw_i >= 0,
    ;
}

} // verus!
