//! An event scheduler that reproduces a Poisson arrival process.
//!
//! The scheduler draws interarrival gaps from a caller-supplied sampler,
//! computes each event's absolute target time, busy-waits until the clock
//! reaches it, and then invokes a caller-supplied action with that timestamp.
//! Scheduling the next event from the clock rather than from the action's
//! completion time avoids coordinated omission: a slow action does not push
//! later events back.
//!
//! Every run returns a ghost log of what happened: the clock reading at which
//! the run began and, per event, the sampled gap, the reading the event was
//! scheduled from, and the timestamp handed to the action. The contracts over
//! this log state the ordering guarantees of the scheduler.

use vstd::prelude::*;
use crate::clock::Clock;

verus! {

/// Why constructing a scheduler failed. Both cases are caller
/// misconfiguration: no usable scheduler can exist for such a rate.
#[derive(Clone, Copy, Debug, PartialEq, Eq)]
pub enum SchedulerError {
    /// The requested rate exceeds one event per nanosecond, the precision
    /// floor of the nanosecond-based interarrival times.
    RateOutOfRange,
    /// The requested rate is zero, so no exponential interarrival
    /// distribution exists for it.
    InvalidDistributionParameter,
}

impl SchedulerError {
    /// A description of the failure, suitable for a fatal report.
    pub fn message(&self) -> (r: &'static str)
        ensures
            self is RateOutOfRange ==> r@ == "Rate should not exceed 1e9 operations per second"@,
            self is InvalidDistributionParameter ==> r@
                == "Exponential function could not be created."@,
    {
        match self {
            SchedulerError::RateOutOfRange => "Rate should not exceed 1e9 operations per second",
            SchedulerError::InvalidDistributionParameter => "Exponential function could not be created.",
        }
    }
}

/// A source of interarrival gaps, in whole nanoseconds.
///
/// A Poisson process of rate `r` events per second corresponds to a sampler
/// that draws each gap independently from an exponential distribution with
/// mean `1e9 / r` nanoseconds, truncated to whole nanoseconds. The scheduler
/// makes no assumption about the values a sampler returns; its ordering
/// guarantees hold for every sampler.
pub trait GapSampler {
    /// Draw the next interarrival gap, in nanoseconds.
    fn next_gap_ns(&mut self) -> u64;
}

/// A sampler that always returns the same gap: events at a fixed cadence,
/// useful where a deterministic schedule is wanted.
pub struct FixedGapSampler {
    gap_ns: u64,
}

impl FixedGapSampler {
    /// The gap this sampler returns on every draw.
    pub closed spec fn gap(self) -> u64 {
        self.gap_ns
    }

    pub fn new(gap_ns: u64) -> (s: FixedGapSampler)
        ensures
            s.gap() == gap_ns,
    {
        FixedGapSampler { gap_ns }
    }
}

impl GapSampler for FixedGapSampler {
    fn next_gap_ns(&mut self) -> u64 {
        self.gap_ns
    }
}

/// One scheduled event, as recorded in the ghost log of a run.
pub struct EventRecord {
    /// The clock reading that admitted this event: the run's deadline had
    /// not been reached when it was taken.
    pub check_ns: u64,
    /// The interarrival gap drawn for this event, in nanoseconds.
    pub gap_ns: u64,
    /// The clock reading from which the event was scheduled.
    pub base_ns: u64,
    /// The absolute target time passed to the action:
    /// `base_ns + gap_ns`, saturated at `u64::MAX`.
    pub timestamp_ns: u64,
}

/// The ghost record of one run: the clock reading at which the run began and
/// one record per action invocation, in invocation order.
pub struct RunLog {
    /// The clock reading taken when the run began.
    pub start_ns: u64,
    /// One record per action invocation, in order.
    pub events: Seq<EventRecord>,
}

/// Generates events at timestamps that follow the gaps drawn from its
/// sampler, invoking an action at each one.
///
/// The rate is bounded by construction: at least one event per second and at
/// most one per nanosecond. An instance owns its sampler and its clock and is
/// meant for one logical flow of control at a time.
pub struct PoissonScheduler<S: GapSampler> {
    rate: u64,
    clock: Clock,
    sampler: S,
}

impl<S: GapSampler> PoissonScheduler<S> {
    /// The configured average rate, in events per second.
    pub closed spec fn rate(self) -> u64 {
        self.rate
    }

    /// The current state of the scheduler's gap sampler.
    pub closed spec fn sampler(self) -> S {
        self.sampler
    }

    /// The last reading of the scheduler's clock, in nanoseconds since the
    /// scheduler was constructed.
    pub closed spec fn last_reading(self) -> u64 {
        self.clock.last_reading()
    }

    /// The construction invariant: a positive rate of at most 1e9 events per
    /// second, so that a whole-nanosecond interarrival time can represent it.
    pub open spec fn wf(self) -> bool {
        1 <= self.rate() <= 1_000_000_000
    }

    /// Create a scheduler for `rate` events per second, drawing gaps from
    /// `sampler`.
    ///
    /// Construction fails exactly on the rates for which no scheduler can
    /// work: rates above 1e9 per second, which whole nanoseconds cannot
    /// resolve, and a rate of zero, for which no exponential distribution
    /// exists.
    pub fn new(rate: u64, sampler: S) -> (r: Result<PoissonScheduler<S>, SchedulerError>)
        ensures
            rate > 1_000_000_000 ==> r == Err::<PoissonScheduler<S>, SchedulerError>(
                SchedulerError::RateOutOfRange,
            ),
            rate == 0 ==> r == Err::<PoissonScheduler<S>, SchedulerError>(
                SchedulerError::InvalidDistributionParameter,
            ),
            1 <= rate <= 1_000_000_000 ==> (r matches Ok(s) && s.wf() && s.rate() == rate
                && s.sampler() == sampler && s.last_reading() == 0),
    {
        if rate > 1_000_000_000 {
            Err(SchedulerError::RateOutOfRange)
        } else if rate == 0 {
            Err(SchedulerError::InvalidDistributionParameter)
        } else {
            Ok(PoissonScheduler { rate, clock: Clock::new(), sampler })
        }
    }

    /// Read the scheduler's clock: nanoseconds since construction, saturated
    /// at `u64::MAX`. Readings never decrease.
    pub fn now_ns(&mut self) -> (r: u64)
        ensures
            r == final(self).last_reading(),
            old(self).last_reading() <= r,
            final(self).rate() == old(self).rate(),
            final(self).sampler() == old(self).sampler(),
    {
        self.clock.now_ns()
    }

    /// Block, by active polling, until the clock reads at least `target_ns`.
    ///
    /// Returns only once the clock has reached the target; it cannot fail,
    /// and its only cost is the CPU it burns while waiting.
    pub fn wait_until(&mut self, target_ns: u64)
        ensures
            final(self).last_reading() >= target_ns,
            final(self).last_reading() >= old(self).last_reading(),
            final(self).rate() == old(self).rate(),
            final(self).sampler() == old(self).sampler(),
    {
        self.clock.wait_until(target_ns);
    }

    /// Generate events for `runtime_ns` nanoseconds, invoking `action` once
    /// per event with the event's absolute timestamp.
    ///
    /// Each iteration draws a gap, schedules the event at the current clock
    /// reading plus that gap, waits until the clock reaches it, and invokes
    /// the action. The elapsed-runtime bound is re-checked only between
    /// iterations, so a run can overshoot `runtime_ns` by up to one gap plus
    /// one action; it never stops early, and with a runtime of zero it
    /// invokes the action not at all.
    ///
    /// The returned ghost log pins the guarantees down: every event was
    /// admitted by a clock reading below the run's deadline, timestamps never
    /// decrease, they increase strictly wherever the drawn gap is at least
    /// one nanosecond (short of clock saturation), every timestamp is at
    /// least the reading at which the run began, and every event's target
    /// time had been reached on the clock before its action ran.
    pub fn run<F: FnMut(u64)>(&mut self, runtime_ns: u64, action: F) -> (log: Ghost<RunLog>)
        requires
            forall|t: u64| #[trigger] call_requires(action, (t,)),
        ensures
            final(self).rate() == old(self).rate(),
            old(self).last_reading() <= log@.start_ns,
            log@.start_ns <= final(self).last_reading(),
            final(self).last_reading() >= log@.start_ns.saturating_add(runtime_ns),
            runtime_ns == 0 ==> log@.events.len() == 0,
            forall|i: int|
                0 <= i < log@.events.len() ==> (#[trigger] log@.events[i]).check_ns
                    < log@.start_ns.saturating_add(runtime_ns),
            forall|i: int|
                0 <= i < log@.events.len() ==> (#[trigger] log@.events[i]).check_ns
                    >= log@.start_ns,
            forall|i: int|
                0 <= i < log@.events.len() ==> (#[trigger] log@.events[i]).base_ns
                    >= log@.events[i].check_ns,
            forall|i: int|
                0 <= i < log@.events.len() ==> (#[trigger] log@.events[i]).timestamp_ns
                    == log@.events[i].base_ns.saturating_add(log@.events[i].gap_ns),
            forall|i: int|
                0 <= i < log@.events.len() ==> (#[trigger] log@.events[i]).timestamp_ns
                    >= log@.start_ns,
            forall|i: int|
                0 < i < log@.events.len() ==> (#[trigger] log@.events[i]).check_ns
                    >= log@.events[i - 1].timestamp_ns,
            forall|i: int|
                0 < i < log@.events.len() ==> (#[trigger] log@.events[i]).timestamp_ns
                    >= log@.events[i - 1].timestamp_ns,
            forall|i: int|
                0 < i < log@.events.len() && log@.events[i].gap_ns >= 1
                    && log@.events[i - 1].timestamp_ns < u64::MAX ==> (
                #[trigger] log@.events[i]).timestamp_ns > log@.events[i - 1].timestamp_ns,
            log@.events.len() > 0 ==> final(self).last_reading()
                >= log@.events[log@.events.len() - 1].timestamp_ns,
    {
        let mut action = action;
        let ghost mut events: Seq<EventRecord> = Seq::empty();
        let start = self.clock.now_ns();
        let end_time = start.saturating_add(runtime_ns);
        let mut now = self.clock.now_ns();
        while now < end_time
            invariant
                forall|t: u64| #[trigger] call_requires(action, (t,)),
                self.rate == old(self).rate,
                now == self.clock.last_reading(),
                old(self).last_reading() <= start,
                start <= now,
                end_time == start.saturating_add(runtime_ns),
                runtime_ns == 0 ==> events.len() == 0,
                forall|i: int|
                    0 <= i < events.len() ==> (#[trigger] events[i]).check_ns < end_time,
                forall|i: int|
                    0 <= i < events.len() ==> (#[trigger] events[i]).check_ns >= start,
                forall|i: int|
                    0 <= i < events.len() ==> (#[trigger] events[i]).base_ns
                        >= events[i].check_ns,
                forall|i: int|
                    0 <= i < events.len() ==> (#[trigger] events[i]).timestamp_ns
                        == events[i].base_ns.saturating_add(events[i].gap_ns),
                forall|i: int|
                    0 < i < events.len() ==> (#[trigger] events[i]).check_ns
                        >= events[i - 1].timestamp_ns,
                events.len() > 0 ==> now >= events[events.len() - 1].timestamp_ns,
            decreases self.clock.poll_budget(), u64::MAX - now,
        {
            let ghost check = now;
            let gap = self.sampler.next_gap_ns();
            let base = self.clock.now_ns();
            let next_time = base.saturating_add(gap);
            self.clock.wait_until(next_time);
            action(next_time);
            proof {
                events = events.push(
                    EventRecord {
                        check_ns: check,
                        gap_ns: gap,
                        base_ns: base,
                        timestamp_ns: next_time,
                    },
                );
            }
            now = self.clock.now_ns();
        }
        Ghost(RunLog { start_ns: start, events })
    }
}

} // verus!
