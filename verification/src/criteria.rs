//! The retention rule: which messages are old enough to leave the store.

use std::time::{SystemTime, UNIX_EPOCH};
use vstd::prelude::*;
use crate::message::{MailInfo, MailInfoView};

verus! {

/// The cutoff of a run that starts at `now`, in seconds since the epoch, and
/// retires what is `age` days old: `age` days before `now`.
pub open spec fn cutoff(now: int, age: nat) -> int {
    now - age * 86400
}

/// Reads the system clock with `SystemTime::now` and hands out the whole
/// seconds that have passed since `UNIX_EPOCH`, or `None` where the clock
/// stands before it. Nothing is claimed of the reading.
#[verifier::external_body]
fn seconds_since_epoch() -> Option<u64> {
    match SystemTime::now().duration_since(UNIX_EPOCH) {
        Ok(elapsed) => Some(elapsed.as_secs()),
        Err(_) => None,
    }
}

/// The retention rule of one run.
#[derive(Clone, Copy, Debug, PartialEq, Eq, Structural)]
pub struct Criteria {
    /// The cutoff: a message dated at or before this instant is old.
    pub before: i64,
    /// Whether only messages that have been seen may be retired.
    pub must_seen: bool,
}

impl Criteria {
    /// The rule itself: a message is retired when it is dated at or before the
    /// cutoff, has been seen where that is asked for, and is not flagged.
    pub open spec fn retires(self, mail: MailInfoView) -> bool {
        &&& mail.date_resolved <= self.before
        &&& (self.must_seen ==> mail.seen)
        &&& !mail.flagged
    }

    /// The rule of a run that starts at `now`, in seconds since the epoch,
    /// and retires what is `age` days old. There is none where the cutoff,
    /// `age` days before `now`, is no `i64`.
    pub fn at(now: u64, age: usize, must_seen: bool) -> (criteria: Option<Criteria>)
        ensures
            criteria is Some <==> i64::MIN <= cutoff(now as int, age as nat) <= i64::MAX,
            criteria matches Some(c) ==> c.before == cutoff(now as int, age as nat)
                && c.must_seen == must_seen,
    {
        let before: i128 = now as i128 - (age as i128) * 86400;
        if before < i64::MIN as i128 || before > i64::MAX as i128 {
            None
        } else {
            Some(Criteria { before: before as i64, must_seen })
        }
    }

    /// The rule of a run that starts now and retires what is `age` days old:
    /// the rule that [`Criteria::at`] gives for what the system clock reads.
    /// There is none where the clock stands before the epoch, or where `at`
    /// gives none.
    pub fn new(age: usize, must_seen: bool) -> (criteria: Option<Criteria>)
        ensures
            criteria matches Some(c) ==> c.must_seen == must_seen && exists|now: u64|
                c.before == #[trigger] cutoff(now as int, age as nat),
    {
        match seconds_since_epoch() {
            Some(now) => Criteria::at(now, age, must_seen),
            None => None,
        }
    }

    /// Decides whether `mail` is to be retired.
    pub fn should_archive(&self, mail: &MailInfo) -> (retire: bool)
        ensures
            retire == self.retires(mail@),
            mail.date_resolved > self.before ==> !retire,
            mail.flagged ==> !retire,
            self.must_seen && !mail.seen ==> !retire,
    {
        let old = mail.date_resolved <= self.before;
        old && (!self.must_seen || mail.seen) && !mail.flagged
    }
}

} // verus!
