//! Poisson-process event scheduling with verified timing guarantees.
//!
//! A [`PoissonScheduler`] invokes a caller-supplied action at timestamps
//! whose interarrival gaps come from a caller-supplied sampler — for a true
//! Poisson process, an exponential sampler. The next event is always
//! scheduled from the clock, never from when the previous action finished,
//! which keeps a slow action from suppressing later events (coordinated
//! omission). Waiting is done by active polling, trading CPU for timing
//! precision well below what sleep primitives offer.

mod clock;
mod scheduler;

pub use scheduler::EventRecord;
pub use scheduler::FixedGapSampler;
pub use scheduler::GapSampler;
pub use scheduler::PoissonScheduler;
pub use scheduler::RunLog;
pub use scheduler::SchedulerError;
