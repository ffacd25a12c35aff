//! A monotone nanosecond clock, the only place where the library touches
//! wall-clock time.
//!
//! Timestamps are plain `u64` nanosecond counts measured from the moment the
//! clock was created, saturating at `u64::MAX`. The scheduler's contracts are
//! stated over the readings this clock hands out.

use vstd::prelude::*;
use std::time::Instant;

verus! {

#[verifier::external_type_specification]
#[verifier::external_body]
pub struct ExInstant(Instant);

/// Relies on std::time::Instant::now: an opaque reference point from which
/// elapsed time is measured.
#[verifier::external_body]
fn instant_now() -> (t: Instant) {
    Instant::now()
}

/// A clock that reports how many nanoseconds have passed since it was created.
///
/// Two ghost fields model the physical clock: `reading` is the value handed
/// out by the most recent poll, and `budget` bounds how many further polls can
/// still return a value below `u64::MAX`. Readings never decrease, so a loop
/// that polls until a target reading is reached terminates: every poll either
/// returns the saturated maximum or consumes budget.
pub(crate) struct Clock {
    start: Instant,
    reading: Ghost<u64>,
    budget: Ghost<nat>,
}

impl Clock {
    /// The nanosecond value handed out by the most recent poll
    /// (zero before the first poll).
    pub(crate) closed spec fn last_reading(self) -> u64 {
        self.reading@
    }

    /// How many further polls can still return a reading below `u64::MAX`.
    pub(crate) closed spec fn poll_budget(self) -> nat {
        self.budget@
    }

    /// A fresh clock; its readings count nanoseconds from this call onward.
    pub(crate) fn new() -> (c: Clock)
        ensures
            c.last_reading() == 0,
    {
        Clock { start: instant_now(), reading: Ghost(0), budget: Ghost(arbitrary()) }
    }

    /// Relies on std::time::Instant::elapsed (read through
    /// Duration::as_nanos, saturated into u64): Instant is documented to be
    /// monotonically nondecreasing, so the elapsed nanoseconds since `start`
    /// never shrink from one poll to the next. The budget clauses state the
    /// matching liveness idealization: elapsed time grows without bound, so a
    /// clock cannot be polled forever without eventually reading `u64::MAX`.
    #[verifier::external_body]
    pub(crate) fn now_ns(&mut self) -> (r: u64)
        ensures
            r == final(self).last_reading(),
            old(self).last_reading() <= r,
            final(self).poll_budget() <= old(self).poll_budget(),
            r < u64::MAX ==> final(self).poll_budget() < old(self).poll_budget(),
    {
        let nanos = self.start.elapsed().as_nanos();
        u64::try_from(nanos).unwrap_or(u64::MAX)
    }

    /// Poll the clock until it reads at least `target_ns`.
    ///
    /// An active poll, deliberately without any sleeping: coarse sleep
    /// primitives have millisecond-class granularity, far too coarse for the
    /// sub-millisecond interarrival gaps of a high-rate event stream. The
    /// cost is a busy CPU while waiting.
    pub(crate) fn wait_until(&mut self, target_ns: u64)
        ensures
            final(self).last_reading() >= target_ns,
            final(self).last_reading() >= old(self).last_reading(),
            final(self).poll_budget() <= old(self).poll_budget(),
    {
        let mut now = self.now_ns();
        while now < target_ns
            invariant
                now == self.last_reading(),
                self.last_reading() >= old(self).last_reading(),
                self.poll_budget() <= old(self).poll_budget(),
            decreases self.poll_budget(), u64::MAX - now,
        {
            now = self.now_ns();
        }
    }
}

} // verus!
