use poisson_scheduler::{FixedGapSampler, GapSampler, PoissonScheduler, SchedulerError};
use rand::rngs::ThreadRng;
use rand::thread_rng;
use rand_distr::{Distribution, Exp};
use std::time::{Duration, Instant};

/// Interarrival gaps drawn from an exponential distribution with parameter
/// `rate / 1e9` events per nanosecond, truncated to whole nanoseconds: the
/// sampler of a Poisson process of `rate` events per second.
struct ExpGapSampler {
    rng: ThreadRng,
    exp: Exp<f64>,
}

impl ExpGapSampler {
    fn new(rate: f64) -> ExpGapSampler {
        let exp = Exp::new(rate / 1e9).expect("Exponential function could not be created.");
        ExpGapSampler {
            rng: thread_rng(),
            exp,
        }
    }
}

impl GapSampler for ExpGapSampler {
    fn next_gap_ns(&mut self) -> u64 {
        self.exp.sample(&mut self.rng) as u64
    }
}

fn scheduler_or_panic<S: GapSampler>(rate: u64, sampler: S) -> PoissonScheduler<S> {
    match PoissonScheduler::new(rate, sampler) {
        Ok(scheduler) => scheduler,
        Err(e) => panic!("{}", e.message()),
    }
}

#[test]
fn test_poisson_scheduler_rate() {
    // Given
    let rate: u64 = 10; // 10 events per second
    let runtime_ns: u64 = 1_000_000_000; // 1 second
    let mut expected_in_range: u64 = 0;
    //
    for _ in 0..10 {
        let mut scheduler = scheduler_or_panic(rate, ExpGapSampler::new(rate as f64));

        // When
        let mut counter: u64 = 0;
        scheduler.run(runtime_ns, |_| {
            counter += 1;
        });
        if counter >= 3 && counter <= 17 {
            expected_in_range += 1;
        }
    }
    // The count per run is random; mean 10 with standard deviation about
    // 3.16, so about 95% of runs land within two standard deviations of the
    // mean, roughly the range [3, 17].
    assert!(
        expected_in_range >= 9, // A small range around 10 to allow for randomness
        "Expected around 95% events in the range. got {}",
        expected_in_range
    );
}

#[test]
#[should_panic(expected = "Rate should not exceed 1e9 operations per second")]
fn test_rate_exceeds_limit() {
    let rate: u64 = 10_000_000_000;
    let _scheduler = scheduler_or_panic(rate, FixedGapSampler::new(1));
}

#[test]
fn test_wait_until() {
    // Given
    let delay = Duration::from_millis(100);
    let mut scheduler = scheduler_or_panic(1, FixedGapSampler::new(1));

    // When
    let start_time = Instant::now();
    let target_ns: u64 = scheduler.now_ns() + 100_000_000;
    scheduler.wait_until(target_ns);
    let elapsed_time = start_time.elapsed();

    // Then
    assert!(
        elapsed_time >= delay,
        "Wait function did not delay for at least the target duration"
    );
}

#[test]
fn test_zero_runtime_invokes_nothing() {
    let mut scheduler = scheduler_or_panic(1000, FixedGapSampler::new(1_000_000));
    let mut counter: u64 = 0;
    scheduler.run(0, |_| {
        counter += 1;
    });
    assert_eq!(counter, 0);
}

#[test]
fn test_timestamps_strictly_increase() {
    // A fixed gap of one millisecond, run for fifty milliseconds.
    let mut scheduler = scheduler_or_panic(1000, FixedGapSampler::new(1_000_000));
    let before_run: u64 = scheduler.now_ns();
    let mut stamps: Vec<u64> = Vec::new();
    scheduler.run(50_000_000, |t| {
        stamps.push(t);
    });
    assert!(stamps.len() >= 1);
    // Consecutive events are at least one gap apart and each must be admitted
    // before the deadline, so at most fifty events fit into the run.
    assert!(stamps.len() <= 50);
    assert!(stamps[0] >= before_run);
    let mut i: usize = 1;
    while i < stamps.len() {
        assert!(stamps[i] > stamps[i - 1]);
        i += 1;
    }
}

#[test]
fn test_run_lasts_at_least_runtime() {
    let mut scheduler = scheduler_or_panic(100, FixedGapSampler::new(10_000_000));
    let start_time = Instant::now();
    scheduler.run(200_000_000, |_| {});
    assert!(start_time.elapsed() >= Duration::from_millis(200));
}

#[test]
fn test_construct_rate_bounds() {
    // The highest representable rate: one event per nanosecond.
    assert!(PoissonScheduler::new(1_000_000_000, FixedGapSampler::new(1)).is_ok());
    match PoissonScheduler::new(1_000_000_001, FixedGapSampler::new(1)) {
        Ok(_) => panic!("a rate above the limit must be rejected"),
        Err(e) => assert_eq!(e, SchedulerError::RateOutOfRange),
    }
    match PoissonScheduler::new(0, FixedGapSampler::new(1)) {
        Ok(_) => panic!("a zero rate must be rejected"),
        Err(e) => assert_eq!(e, SchedulerError::InvalidDistributionParameter),
    }
}

#[test]
fn test_error_messages() {
    assert_eq!(
        SchedulerError::RateOutOfRange.message(),
        "Rate should not exceed 1e9 operations per second"
    );
    assert_eq!(
        SchedulerError::InvalidDistributionParameter.message(),
        "Exponential function could not be created."
    );
}

#[test]
fn test_gap_sample_mean() {
    // The mean sampled gap should land near 1e9 / rate nanoseconds.
    let rate: f64 = 1000.0;
    let mut sampler = ExpGapSampler::new(rate);
    let n: u64 = 200_000;
    let mut total: u64 = 0;
    let mut i: u64 = 0;
    while i < n {
        total += sampler.next_gap_ns();
        i += 1;
    }
    let mean: f64 = total as f64 / n as f64;
    let expected: f64 = 1e9 / rate;
    assert!(
        (mean - expected).abs() <= expected * 0.10,
        "sample mean {} outside ten percent of {}",
        mean,
        expected
    );
}
