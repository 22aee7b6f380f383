use vstd::prelude::*;

use crate::interval::Interval;

verus! {

/// The wait after failure number `k` (counting from zero): `base` doubled
/// `k` times, but never more than `max`.
pub open spec fn capped_delay(base: nat, max: nat, k: nat) -> nat
    decreases k,
{
    if k == 0 {
        if base <= max {
            base
        } else {
            max
        }
    } else if 2 * capped_delay(base, max, (k - 1) as nat) <= max {
        2 * capped_delay(base, max, (k - 1) as nat)
    } else {
        max
    }
}

/// The time spent waiting over the first `n` failures.
pub open spec fn total_wait(base: nat, max: nat, n: nat) -> nat
    decreases n,
{
    if n == 0 {
        0
    } else {
        total_wait(base, max, (n - 1) as nat) + capped_delay(base, max, (n - 1) as nat)
    }
}

/// Each wait is at most `max`, and the waits of the first `n` failures add up
/// to at most `n` times `max`.
pub proof fn lemma_total_wait_bounded(base: nat, max: nat, n: nat)
    ensures
        forall|k: nat| #[trigger] capped_delay(base, max, k) <= max,
        total_wait(base, max, n) <= n * max,
    decreases n,
{
    if n > 0 {
        lemma_total_wait_bounded(base, max, (n - 1) as nat);
        assert(total_wait(base, max, n) <= (n - 1) * max + max);
        assert((n - 1) * max + max == n * max) by (nonlinear_arith)
            requires
                n >= 1,
        ;
    }
}

/// Where a run of retries stands.
pub struct BackoffView {
    /// The first wait, in milliseconds.
    pub base: nat,
    /// The longest wait, in milliseconds.
    pub max: nat,
    /// How many attempts have failed.
    pub failures: nat,
    /// How long has been waited in all, in milliseconds.
    pub waited: nat,
}

/// The waits between attempts of a call that is retried until it succeeds:
/// the wait starts at a base and doubles after each failure, up to a cap.
pub struct RetryBackoff {
    delay: u128,
    max: u128,
    base: Ghost<nat>,
    failures: Ghost<nat>,
    waited: Ghost<nat>,
}

/// What to do after an attempt.
pub enum RetryAction<T> {
    /// The attempt succeeded: hand back its result.
    Return(T),
    /// The attempt failed: wait this long, then try again.
    Wait(Interval),
}

impl View for RetryBackoff {
    type V = BackoffView;

    closed spec fn view(&self) -> BackoffView {
        BackoffView {
            base: self.base@,
            max: self.max as nat,
            failures: self.failures@,
            waited: self.waited@,
        }
    }
}

impl RetryBackoff {
    /// The next wait is the one due after the failures so far, and the time
    /// waited is the sum of the waits before it.
    pub closed spec fn wf(&self) -> bool {
        &&& self.delay == capped_delay(self.base@, self.max as nat, self.failures@)
        &&& self.waited@ == total_wait(self.base@, self.max as nat, self.failures@)
    }

    /// However many attempts have failed, the time waited in all is the sum
    /// of the capped doubling waits, each at most the cap, so at most the
    /// number of failures times the cap.
    pub proof fn lemma_waited_bounded(&self)
        requires
            self.wf(),
        ensures
            self@.waited == total_wait(self@.base, self@.max, self@.failures),
            self@.waited <= self@.failures * self@.max,
    {
        lemma_total_wait_bounded(self@.base, self@.max, self@.failures);
    }

    /// No attempt made yet: the first wait will be `base`, or `max` if that
    /// is shorter.
    pub fn new(base: Interval, max: Interval) -> (r: RetryBackoff)
        ensures
            r.wf(),
            r@ == (BackoffView { base: base@, max: max@, failures: 0, waited: 0 }),
    {
        let b = base.as_millis();
        let m = max.as_millis();
        RetryBackoff {
            delay: if b <= m {
                b
            } else {
                m
            },
            max: m,
            base: Ghost(base@),
            failures: Ghost(0),
            waited: Ghost(0),
        }
    }

    /// Records a failed attempt and gives the wait before the next one.
    pub fn next_wait(&mut self) -> (r: Interval)
        requires
            old(self).wf(),
        ensures
            final(self).wf(),
            r@ == capped_delay(old(self)@.base, old(self)@.max, old(self)@.failures),
            r@ <= old(self)@.max,
            final(self)@ == (BackoffView {
                failures: old(self)@.failures + 1,
                waited: old(self)@.waited + r@,
                ..old(self)@
            }),
    {
        proof {
            lemma_total_wait_bounded(self.base@, self.max as nat, self.failures@);
        }
        let wait = self.delay;
        if self.delay >= self.max - self.delay {
            self.delay = self.max;
        } else {
            self.delay = self.delay + self.delay;
        }
        self.failures = Ghost(self.failures@ + 1);
        self.waited = Ghost(self.waited@ + wait as nat);
        Interval::from_millis_wide(wait)
    }

    /// Decides what follows an attempt: its result where it succeeded, else
    /// the wait before the next attempt.
    pub fn after_attempt<T, E>(&mut self, outcome: Result<T, E>) -> (r: RetryAction<T>)
        requires
            old(self).wf(),
        ensures
            final(self).wf(),
            match outcome {
                Ok(t) => r == RetryAction::Return(t) && final(self)@ == old(self)@,
                Err(_) => match r {
                    RetryAction::Wait(w) => {
                        &&& w@ == capped_delay(old(self)@.base, old(self)@.max, old(self)@.failures)
                        &&& final(self)@ == (BackoffView {
                            failures: old(self)@.failures + 1,
                            waited: old(self)@.waited + w@,
                            ..old(self)@
                        })
                    },
                    RetryAction::Return(_) => false,
                },
            },
    {
        match outcome {
            Ok(t) => RetryAction::Return(t),
            Err(_) => RetryAction::Wait(self.next_wait()),
        }
    }
}

} // verus!
