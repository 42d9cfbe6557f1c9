//! The benchmark calibrator: probes increasing concurrency levels over a
//! shrinking subset of hosts and stops once the overload rate of a round
//! exceeds one in ten.
//!
//! The calibrator only decides. Whoever drives it runs each probe round it asks
//! for and reports the number of overload failures seen in that round.
use vstd::prelude::*;
use crate::outcome::Response;
use crate::sink::{is_overload, overload_failure};

verus! {

/// Concurrency of the first probe round.
pub const FIRST_CONCURRENCY: usize = 2;

/// Largest size of the first probe subset.
pub const FIRST_PROBE_SIZE: usize = 10;

/// Why calibration could not start.
#[derive(Debug, PartialEq, Eq, Structural)]
pub enum CalibrationError {
    /// There is no host to probe.
    NoHosts,
}

/// One probe round: run the first `size` hosts with at most `concurrency`
/// sessions at a time.
#[derive(Debug, PartialEq, Eq, Structural, Clone, Copy)]
pub struct Probe {
    pub concurrency: usize,
    pub size: usize,
}

/// A round's overload rate exceeds 10%: `overloads / size > 1/10`.
pub open spec fn exceeds_threshold(overloads: nat, size: nat) -> bool {
    overloads * 10 > size
}

/// Size of the probe subset for the round at concurrency `c`, after a round
/// over `size` hosts.
pub open spec fn next_probe_size(size: nat, c: nat) -> nat
    recommends
        c > 0,
{
    (size * (c - 1) / c as int) as nat
}

/// The state of a calibration.
pub struct Calibrator {
    /// Concurrency of the next round.
    pub concurrency: usize,
    /// Size of the next round's probe subset.
    pub probe_size: usize,
    /// The configured maximum concurrency.
    pub max_concurrency: usize,
    /// The last concurrency whose round stayed at or below the threshold.
    pub best: Option<usize>,
    /// A round exceeded the threshold, or the maximum was probed.
    pub stopped: bool,
}

impl Calibrator {
    pub open spec fn wf(&self) -> bool {
        &&& self.concurrency >= FIRST_CONCURRENCY
        &&& self.best matches Some(b) ==> b <= self.max_concurrency && b <= self.concurrency
    }

    /// A further round is to be run.
    pub open spec fn active(&self) -> bool {
        !self.stopped && self.concurrency <= self.max_concurrency && self.probe_size > 0
    }

    /// The state after the current round saw `overloads` overload failures.
    pub open spec fn after(&self, overloads: nat) -> Calibrator {
        if exceeds_threshold(overloads, self.probe_size as nat) {
            Calibrator { stopped: true, ..*self }
        } else if self.concurrency == self.max_concurrency {
            Calibrator { stopped: true, best: Some(self.concurrency), ..*self }
        } else {
            Calibrator {
                concurrency: (self.concurrency + 1) as usize,
                probe_size: next_probe_size(self.probe_size as nat, (self.concurrency + 1) as nat)
                    as usize,
                best: Some(self.concurrency),
                ..*self
            }
        }
    }

    /// What a calibration from this state recommends when every round at
    /// concurrency `c` over `s` hosts sees `env(c, s)` overload failures.
    pub open spec fn outcome_in(self, env: spec_fn(nat, nat) -> nat) -> Option<usize>
        decreases (self.max_concurrency + 1 - self.concurrency) * 2 + (if self.stopped {
            0int
        } else {
            1
        }),
    {
        if self.active() {
            self.after(env(self.concurrency as nat, self.probe_size as nat)).outcome_in(env)
        } else {
            self.best
        }
    }

    /// Starts a calibration over `host_count` hosts, probing concurrency levels
    /// up to `max_concurrency`.
    pub fn new(host_count: usize, max_concurrency: usize) -> (r: Result<
        Calibrator,
        CalibrationError,
    >)
        ensures
            host_count == 0 <==> r is Err,
            r matches Ok(c) ==> {
                &&& c.wf()
                &&& c.concurrency == FIRST_CONCURRENCY
                &&& c.probe_size == (if host_count < FIRST_PROBE_SIZE {
                    host_count
                } else {
                    FIRST_PROBE_SIZE
                })
                &&& c.max_concurrency == max_concurrency
                &&& c.best is None
                &&& !c.stopped
            },
    {
        if host_count == 0 {
            return Err(CalibrationError::NoHosts);
        }
        let probe_size = if host_count < FIRST_PROBE_SIZE {
            host_count
        } else {
            FIRST_PROBE_SIZE
        };
        Ok(
            Calibrator {
                concurrency: FIRST_CONCURRENCY,
                probe_size,
                max_concurrency,
                best: None,
                stopped: false,
            },
        )
    }

    /// The next round to run, if any.
    pub fn next_probe(&self) -> (r: Option<Probe>)
        ensures
            r is Some <==> self.active(),
            r matches Some(p) ==> p.concurrency == self.concurrency && p.size == self.probe_size,
    {
        if !self.stopped && self.concurrency <= self.max_concurrency && self.probe_size > 0 {
            Some(Probe { concurrency: self.concurrency, size: self.probe_size })
        } else {
            None
        }
    }

    /// Takes the number of overload failures seen in the round that
    /// `next_probe` asked for.
    pub fn record(&mut self, overloads: usize)
        requires
            old(self).wf(),
            old(self).active(),
        ensures
            final(self).wf(),
            *final(self) == old(self).after(overloads as nat),
    {
        if overloads as u128 * 10 > self.probe_size as u128 {
            self.stopped = true;
        } else if self.concurrency == self.max_concurrency {
            self.stopped = true;
            self.best = Some(self.concurrency);
        } else {
            let c = self.concurrency + 1;
            let size = self.probe_size;
            let a: u128 = size as u128;
            let m: u128 = (c - 1) as u128;
            proof {
                assert(a * m <= 0xffff_ffff_ffff_ffffu128 * 0xffff_ffff_ffff_ffffu128)
                    by (nonlinear_arith)
                    requires
                        a <= 0xffff_ffff_ffff_ffffu128,
                        m <= 0xffff_ffff_ffff_ffffu128,
                ;
            }
            let product: u128 = a * m;
            let next: u128 = product / (c as u128);
            proof {
                let ci = c as int;
                assert(product / (c as u128) <= a) by (nonlinear_arith)
                    requires
                        product == a * m,
                        m < ci,
                        ci == c as u128,
                        ci >= 1,
                ;
            }
            self.best = Some(self.concurrency);
            self.concurrency = c;
            self.probe_size = next as usize;
        }
    }

    /// The recommended concurrency: the last level whose round stayed at or
    /// below the threshold, if any did.
    pub fn recommendation(&self) -> (r: Option<usize>)
        ensures
            r == self.best,
    {
        self.best
    }
}

/// Hosts that all fail with the overload signature once more than `k`
/// sessions run at a time, and never fail otherwise.
pub open spec fn overloaded_above(k: nat) -> spec_fn(nat, nat) -> nat {
    |c: nat, s: nat| if c > k { s } else { 0 }
}

/// Calibrating twice from the same state against the same deterministic
/// hosts recommends the same concurrency.
pub proof fn lemma_calibration_deterministic(
    c: Calibrator,
    env1: spec_fn(nat, nat) -> nat,
    env2: spec_fn(nat, nat) -> nat,
)
    requires
        forall|a: nat, b: nat| #[trigger] env1(a, b) == env2(a, b),
    ensures
        c.outcome_in(env1) == c.outcome_in(env2),
    decreases (c.max_concurrency + 1 - c.concurrency) * 2 + (if c.stopped {
        0int
    } else {
        1
    }),
{
    if c.active() {
        let o = env1(c.concurrency as nat, c.probe_size as nat);
        assert(o == env2(c.concurrency as nat, c.probe_size as nat));
        lemma_calibration_deterministic(c.after(o), env1, env2);
    }
}

/// Against hosts that are overloaded above `k` concurrent sessions, a
/// non-empty round above `k` is the last one, and the recommended concurrency
/// never exceeds `k` nor the configured maximum.
pub proof fn lemma_calibration_stops_above_threshold(c: Calibrator, k: nat)
    requires
        c.wf(),
        c.best matches Some(b) ==> b <= k,
    ensures
        c.active() && c.concurrency > k ==> !c.after(
            overloaded_above(k)(c.concurrency as nat, c.probe_size as nat),
        ).active(),
        c.outcome_in(overloaded_above(k)) matches Some(b) ==> b <= k && b <= c.max_concurrency,
    decreases (c.max_concurrency + 1 - c.concurrency) * 2 + (if c.stopped {
        0int
    } else {
        1
    }),
{
    if c.active() {
        let env = overloaded_above(k);
        let o = env(c.concurrency as nat, c.probe_size as nat);
        let n = c.after(o);
        if c.concurrency > k {
            assert(exceeds_threshold(o, c.probe_size as nat));
        } else {
            assert(o == 0);
        }
        if !exceeds_threshold(o, c.probe_size as nat) && c.concurrency < c.max_concurrency {
            let c1 = (c.concurrency + 1) as nat;
            assert(next_probe_size(c.probe_size as nat, c1) <= c.probe_size) by (nonlinear_arith)
                requires
                    c1 >= 1,
            {
                assert(c.probe_size * (c1 - 1) <= c.probe_size * c1);
            }
        }
        lemma_calibration_stops_above_threshold(n, k);
    }
}

/// Rounds from this state, all seeing no overload, have a non-empty probe
/// subset up to and including the round at concurrency `k + 1`.
pub open spec fn probes_reach(c: Calibrator, k: nat) -> bool
    decreases k + 1 - c.concurrency,
{
    &&& c.probe_size > 0
    &&& (c.concurrency <= k && c.concurrency < c.max_concurrency) ==> probes_reach(c.after(0), k)
}

/// Against hosts that are overloaded above `k` concurrent sessions, with `k`
/// below the configured maximum, a calibration whose probe subsets stay
/// non-empty up to concurrency `k + 1` recommends exactly `k`.
pub proof fn lemma_calibration_finds_threshold(c: Calibrator, k: nat)
    requires
        c.wf(),
        !c.stopped,
        probes_reach(c, k),
        c.concurrency <= k + 1,
        k < c.max_concurrency,
        c.concurrency == k + 1 ==> c.best == Some(k as usize),
    ensures
        c.outcome_in(overloaded_above(k)) == Some(k as usize),
    decreases k + 1 - c.concurrency,
{
    let env = overloaded_above(k);
    let o = env(c.concurrency as nat, c.probe_size as nat);
    assert(c.active());
    assert(c.outcome_in(env) == c.after(o).outcome_in(env));
    if c.concurrency <= k {
        assert(o == 0);
        let n = c.after(0);
        assert(n.wf()) by {
            let c1 = (c.concurrency + 1) as nat;
            assert(next_probe_size(c.probe_size as nat, c1) <= c.probe_size) by (nonlinear_arith)
                requires
                    c1 >= 1,
            {
                assert(c.probe_size * (c1 - 1) <= c.probe_size * c1);
            }
        }
        lemma_calibration_finds_threshold(n, k);
    } else {
        assert(exceeds_threshold(o, c.probe_size as nat));
        assert(!c.after(o).active());
        assert(c.after(o).outcome_in(env) == c.best);
    }
}

/// Number of overload failures among `results`.
pub open spec fn overload_count(results: Seq<Response>) -> nat {
    results.filter(|r: Response| is_overload(r)).len()
}

/// Counts the overload failures among the outcomes of one probe round.
pub fn count_overloads(results: &Vec<Response>) -> (n: usize)
    ensures
        n == overload_count(results@),
{
    let mut n: usize = 0;
    let mut i: usize = 0;
    while i < results.len()
        invariant
            i <= results@.len(),
            n == overload_count(results@.subrange(0, i as int)),
            n <= i,
        decreases results@.len() - i,
    {
        proof {
            reveal(Seq::filter);
            assert(results@.subrange(0, i + 1).drop_last() == results@.subrange(0, i as int));
        }
        if overload_failure(&results[i]) {
            n = n + 1;
        }
        i = i + 1;
    }
    assert(results@.subrange(0, results@.len() as int) == results@);
    n
}

} // verus!
