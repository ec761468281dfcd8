use std::time::Duration;

use zipkin::{Collector, Error, FixedRate, RateLimit, Sampler, Span, Tracer};

#[test]
fn fixed_rate() {
    let mut sampler = FixedRate::new(3);

    assert!(sampler.sample(&1));
    assert!(!sampler.sample(&2));
    assert!(!sampler.sample(&3));
    assert!(sampler.sample(&4));

    assert!(!sampler.sample(&5));
    assert!(!sampler.sample(&6));
    assert!(sampler.sample(&7));
    assert!(!sampler.sample(&8));
}

#[test]
fn fixed_rate_keeps_every_nth_call() {
    for n in 1..6usize {
        let mut sampler = FixedRate::new(n);
        for call in 1..40usize {
            assert_eq!(sampler.sample(&()), (call - 1) % n == 0, "rate {} call {}", n, call);
        }
    }
    let mut every = FixedRate::default();
    assert!(every.sample(&()));
    assert!(every.sample(&()));
    let mut never = FixedRate::new(0);
    assert!(!never.sample(&()));
    assert!(!never.sample(&()));
}

#[test]
fn rate_limit() {
    let mut sampler = RateLimit::new(1, 2, Duration::from_millis(100));

    assert!(sampler.sample(&1));
    assert!(!sampler.sample(&2));

    let start = std::time::Instant::now();
    while start.elapsed() < Duration::from_millis(250) {}

    assert!(sampler.sample(&1));
    assert!(sampler.sample(&2));
    assert!(!sampler.sample(&3));
}

#[test]
fn rate_limit_on_a_given_clock() {
    let mut limiter = RateLimit::with_interval_micros(1, 2, 100_000);
    assert!(limiter.sample_at(0));
    assert!(!limiter.sample_at(10));
    assert!(!limiter.sample_at(99_999));
    assert!(limiter.sample_at(250_000));
    assert!(limiter.sample_at(250_001));
    assert!(!limiter.sample_at(250_002));

    let capped = RateLimit::per_second(5, 3);
    assert_eq!(capped.capacity, 5);
    assert_eq!(capped.interval, 1_000_000);
    let per_minute = RateLimit::per_minute(1, 10);
    assert_eq!(per_minute.interval, 60_000_000);
    assert_eq!(per_minute.capacity, 10);
}

#[derive(Default)]
struct MockCollector;

impl Collector for MockCollector {
    fn submit(&mut self, _: Vec<Span>) -> Result<(), Error> {
        Ok(())
    }
}

#[test]
fn sampling() {
    let mut tracer = Tracer::with_sampler(FixedRate::new(2), MockCollector::default());

    assert_eq!(tracer.span("test1").sampled, Some(true));
    assert_eq!(tracer.span("test2").sampled, Some(false));
    assert_eq!(tracer.span("test3").sampled, Some(true));

    tracer = Tracer::new(MockCollector::default());

    assert_eq!(tracer.span("test1").sampled, None);
}

#[test]
fn tracer_submit_sets_duration() {
    let mut tracer: Tracer<FixedRate, MockCollector> = Tracer::new(MockCollector::default());
    let span = tracer.span("work");
    assert_eq!(span.name, "work");
    assert!(tracer.submit(span.clone()).is_ok());

    let finished = zipkin::tracer::finish(span.clone(), span.timestamp + 1500);
    assert_eq!(finished.duration, Some(1500));
    let skewed = zipkin::tracer::finish(span.clone(), span.timestamp - 10);
    assert_eq!(skewed.duration, Some(-10));
}

#[test]
fn rate_limit_with_zero_interval_refills_at_once() {
    let mut limiter = RateLimit::with_interval_micros(1, 1, 0);
    for _ in 0..5 {
        assert!(limiter.sample_at(0));
    }
    let mut none = RateLimit::with_interval_micros(0, 0, 1_000);
    assert!(!none.sample_at(0));
    assert!(none.sample_at(1_000));
}
