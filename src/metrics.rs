//! Outcome counters of a probe run and their one-line report.
use vstd::prelude::*;

use crate::text::{dec_str, push_decimal, push_two_digits, two_digits};

verus! {

/// Counters of connection attempts and of how they ended.
#[derive(Debug)]
pub struct Metrics {
    pub attempts: u32,
    pub success: u32,
    pub failure: u32,
}

/// The counters of a `Metrics` as unbounded numbers.
pub struct Counts {
    pub attempts: nat,
    pub successes: nat,
    pub failures: nat,
}

impl Counts {
    /// Counters with nothing recorded.
    pub open spec fn empty() -> Counts {
        Counts { attempts: 0, successes: 0, failures: 0 }
    }

    /// Every attempt ended either in a success or in a failure.
    pub open spec fn balanced(self) -> bool {
        self.attempts == self.successes + self.failures
    }

    /// The counters after one more attempt that ended as `success` says.
    pub open spec fn recorded(self, success: bool) -> Counts {
        Counts {
            attempts: self.attempts + 1,
            successes: if success { self.successes + 1 } else { self.successes },
            failures: if success { self.failures } else { self.failures + 1 },
        }
    }
}

/// The counters after recording `outcomes` in order, starting from nothing.
pub open spec fn replay(outcomes: Seq<bool>) -> Counts
    decreases outcomes.len(),
{
    if outcomes.len() == 0 {
        Counts::empty()
    } else {
        replay(outcomes.drop_last()).recorded(outcomes.last())
    }
}

/// The failure rate in hundredths of a percent, `100 * failures / attempts`
/// rounded to the nearest hundredth (ties to even), and zero when nothing was
/// attempted.
pub open spec fn rate_hundredths(failures: nat, attempts: nat) -> nat {
    if attempts == 0 {
        0
    } else {
        let q = (10000 * failures) / attempts;
        let r = (10000 * failures) % attempts;
        if 2 * r > attempts || (2 * r == attempts && q % 2 == 1) {
            q + 1
        } else {
            q
        }
    }
}

/// A number of hundredths written with exactly two decimal places.
pub open spec fn hundredths_text(h: nat) -> Seq<char> {
    dec_str(h / 100) + seq!['.'] + two_digits(h % 100)
}

/// `<attempts> attempts, success: <successes>, fail: <failures>, failure rate: <rate>%`
pub open spec fn report_text(c: Counts) -> Seq<char> {
    dec_str(c.attempts) + " attempts, success: "@ + dec_str(c.successes) + ", fail: "@
        + dec_str(c.failures) + ", failure rate: "@
        + hundredths_text(rate_hundredths(c.failures, c.attempts)) + "%"@
}

impl View for Metrics {
    type V = Counts;

    open spec fn view(&self) -> Counts {
        Counts {
            attempts: self.attempts as nat,
            successes: self.success as nat,
            failures: self.failure as nat,
        }
    }
}

impl Default for Metrics {
    fn default() -> (r: Metrics)
        ensures
            r@ == Counts::empty(),
    {
        Metrics { attempts: 0, success: 0, failure: 0 }
    }
}

impl Metrics {
    /// The counters agree: attempts are successes plus failures.
    pub open spec fn wf(&self) -> bool {
        self@.balanced()
    }

    /// Another attempt can still be counted.
    pub open spec fn has_room(&self) -> bool {
        self.attempts < u32::MAX
    }

    /// Record a connection attempt. `success` indicates whether the attempt was successful.
    pub fn record(&mut self, success: bool)
        requires
            old(self).wf(),
            old(self).has_room(),
        ensures
            final(self)@ == old(self)@.recorded(success),
            final(self).wf(),
    {
        self.attempts = self.attempts + 1;
        if success {
            self.success = self.success + 1;
        } else {
            self.failure = self.failure + 1;
        }
    }

    /// Record a connection attempt; the same as `record`.
    pub fn record_attempt(&mut self, success: bool)
        requires
            old(self).wf(),
            old(self).has_room(),
        ensures
            final(self)@ == old(self)@.recorded(success),
            final(self).wf(),
    {
        self.record(success);
    }

    /// The failure rate in hundredths of a percent.
    pub fn failure_rate_hundredths(&self) -> (r: u64)
        ensures
            r as nat == rate_hundredths(self.failure as nat, self.attempts as nat),
    {
        if self.attempts == 0 {
            return 0;
        }
        let a = self.attempts as u64;
        let f = self.failure as u64;
        assert(10000 * f <= 10000 * 0xffff_ffffu64) by (nonlinear_arith)
            requires
                f <= 0xffff_ffffu64,
        ;
        let num: u64 = 10000 * f;
        let q = num / a;
        let r = num % a;
        assert(q <= num) by (nonlinear_arith)
            requires
                q == num / a,
                a >= 1,
        ;
        if 2 * r > a || (2 * r == a && q % 2 == 1) {
            q + 1
        } else {
            q
        }
    }

    /// A report of the collected metrics:
    /// `<attempts> attempts, success: <successes>, fail: <failures>, failure rate: <rate>%`,
    /// the rate with two decimal places. Nothing is changed.
    pub fn report(&self) -> (r: String)
        ensures
            r@ == report_text(self@),
    {
        let h = self.failure_rate_hundredths();
        let mut s = String::new();
        push_decimal(&mut s, self.attempts as u64);
        s.append(" attempts, success: ");
        push_decimal(&mut s, self.success as u64);
        s.append(", fail: ");
        push_decimal(&mut s, self.failure as u64);
        s.append(", failure rate: ");
        push_decimal(&mut s, h / 100);
        s.append(".");
        push_two_digits(&mut s, h % 100);
        s.append("%");
        proof {
            reveal_strlit(".");
        }
        assert(s@ =~= report_text(self@));
        s
    }
}

/// Counting never loses an attempt: after every prefix of any sequence of
/// outcomes recorded from fresh counters, the attempts equal the successes
/// plus the failures, and the attempts equal the number of outcomes.
pub proof fn lemma_counts_stay_balanced(outcomes: Seq<bool>)
    ensures
        forall|k: int|
            0 <= k <= outcomes.len() ==> {
                let c = #[trigger] replay(outcomes.take(k));
                c.balanced() && c.attempts == k
            },
    decreases outcomes.len(),
{
    if outcomes.len() > 0 {
        let rest = outcomes.drop_last();
        lemma_counts_stay_balanced(rest);
        assert forall|k: int| 0 <= k <= outcomes.len() implies {
            let c = #[trigger] replay(outcomes.take(k));
            c.balanced() && c.attempts == k
        } by {
            if k < outcomes.len() {
                assert(outcomes.take(k) =~= rest.take(k));
            } else {
                assert(outcomes.take(k) =~= outcomes);
                assert(rest.take(k - 1) =~= rest);
                assert(replay(rest.take(k - 1)).balanced());
                assert(replay(outcomes) == replay(rest).recorded(outcomes.last()));
            }
        }
    } else {
        assert forall|k: int| 0 <= k <= outcomes.len() implies {
            let c = #[trigger] replay(outcomes.take(k));
            c.balanced() && c.attempts == k
        } by {
            assert(outcomes.take(k) =~= Seq::<bool>::empty());
        }
    }
}

/// A report only reads the counters: counters that agree give the same line,
/// so asking twice with nothing recorded in between gives the same line twice.
pub proof fn lemma_report_repeatable(before: Metrics, after: Metrics)
    requires
        before@ == after@,
    ensures
        report_text(before@) == report_text(after@),
{
}

} // verus!
