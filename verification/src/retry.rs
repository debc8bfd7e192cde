//! Counting the attempts of a retried operation. Running the operation and
//! waiting between attempts are left to the caller.
use vstd::prelude::*;
use vstd::string::StringExecFns;

verus! {

/// The attempts of a retried operation: how many have been made, and how
/// many are allowed (the first one is always made).
pub struct RetryCounter {
    made: u32,
    max_attempts: u32,
}

/// How many attempts are made when every one fails.
pub open spec fn attempts_when_all_fail(max_attempts: nat) -> nat {
    if max_attempts == 0 {
        1
    } else {
        max_attempts
    }
}

/// Whether the failure of attempt `made` (counted from one) leads to another attempt.
pub open spec fn spec_try_again(made: nat, max_attempts: nat) -> bool {
    made < max_attempts
}

impl RetryCounter {
    /// The number of attempts made so far, the running one included.
    pub closed spec fn made(&self) -> nat {
        self.made as nat
    }

    /// The number of attempts allowed.
    pub closed spec fn max_attempts(&self) -> nat {
        self.max_attempts as nat
    }

    /// The counter's record is always consistent: at least one attempt is
    /// made, and no more than allowed unless only the first.
    #[verifier::type_invariant]
    spec fn wf(&self) -> bool {
        1 <= self.made && (self.made <= self.max_attempts || self.made == 1)
    }

    /// Starts counting: the first attempt is being made.
    pub fn start(max_attempts: u32) -> (r: RetryCounter)
        ensures
            r.made() == 1,
            r.max_attempts() == max_attempts,
    {
        RetryCounter { made: 1, max_attempts }
    }

    /// The number of attempts made so far.
    pub fn attempts_made(&self) -> (r: u32)
        ensures
            r == self.made(),
    {
        self.made
    }

    /// Records that the running attempt failed and decides whether to try
    /// again: only while fewer attempts than allowed have been made. On
    /// `true`, the next attempt is counted as made.
    pub fn after_failure(&mut self) -> (r: bool)
        ensures
            final(self).max_attempts() == old(self).max_attempts(),
            r == spec_try_again(old(self).made(), old(self).max_attempts()),
            r ==> final(self).made() == old(self).made() + 1,
            !r ==> final(self).made() == old(self).made(),
    {
        proof {
            use_type_invariant(&*self);
        }
        if self.made >= self.max_attempts {
            false
        } else {
            self.made = self.made + 1;
            true
        }
    }
}

/// The number of attempts made after `failures` failures in a row, from a
/// fresh start, the counting having stopped at the first refusal.
pub open spec fn made_after_failures(max_attempts: nat, failures: nat) -> nat
    decreases failures,
{
    if failures == 0 {
        1
    } else {
        let made = made_after_failures(max_attempts, (failures - 1) as nat);
        if spec_try_again(made, max_attempts) {
            made + 1
        } else {
            made
        }
    }
}

/// When every attempt fails, the operation is tried exactly `max_attempts`
/// times (once when no attempt is allowed), and no more.
pub proof fn lemma_attempts_when_all_fail(max_attempts: nat, failures: nat)
    ensures
        made_after_failures(max_attempts, failures) == if failures + 1 <= attempts_when_all_fail(max_attempts) {
            failures + 1
        } else {
            attempts_when_all_fail(max_attempts)
        },
    decreases failures,
{
    if failures > 0 {
        lemma_attempts_when_all_fail(max_attempts, (failures - 1) as nat);
    }
}

/// The text added to the last error when every attempt has failed.
pub open spec fn spec_exhausted_message(attempts: nat) -> Seq<char> {
    "Operation failed after "@ + crate::text::decimal(attempts) + " attempts"@
}

/// The text added to the last error when all `attempts` attempts have failed.
pub fn exhausted_message(attempts: u32) -> (r: String)
    ensures
        r@ == spec_exhausted_message(attempts as nat),
{
    let mut m = String::new();
    m.append("Operation failed after ");
    let digits = crate::text::decimal_string(attempts as usize);
    m.append(digits.as_str());
    m.append(" attempts");
    m
}

} // verus!
