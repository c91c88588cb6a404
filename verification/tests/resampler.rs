use live_translate::resampler::{resample, TARGET_SAMPLE_RATE};
use std::cell::Cell;

#[test]
fn target_rate_is_sixteen_kilohertz() {
    assert_eq!(TARGET_SAMPLE_RATE, 16_000);
}

#[test]
fn equal_rates_give_the_same_samples() {
    let samples = vec![0.1f32, -0.2, 0.3, 0.4];
    let called = Cell::new(false);
    let out: Result<Vec<f32>, String> = resample(samples.clone(), 16_000, 16_000, |s| {
        called.set(true);
        Ok(s)
    });
    assert_eq!(out, Ok(samples));
    assert!(!called.get());
}

#[test]
fn equal_rates_never_fail() {
    let samples = vec![1i16, 2, 3];
    let out = resample(samples.clone(), 44_100, 44_100, |_| Err("converter is broken"));
    assert_eq!(out, Ok(samples));
}

#[test]
fn different_rates_run_the_converter() {
    let samples = vec![1i16, 2, 3, 4, 5, 6];
    let out: Result<Vec<i16>, String> = resample(samples, 48_000, 16_000, |s| {
        Ok(s.into_iter().step_by(3).collect())
    });
    assert_eq!(out, Ok(vec![1, 4]));
}

#[test]
fn converter_failure_is_handed_on() {
    let samples = vec![0.0f32; 8];
    let out = resample(samples, 0, 16_000, |_| Err("invalid rate ratio"));
    assert_eq!(out, Err("invalid rate ratio"));
}

#[test]
fn resampling_its_own_output_changes_nothing() {
    let samples = vec![5i32, 6, 7, 8];
    let once: Vec<i32> = resample(samples, 32_000, 16_000, |s| {
        Ok::<Vec<i32>, String>(s.into_iter().step_by(2).collect())
    })
    .unwrap();
    assert_eq!(once, vec![5, 7]);
    let twice: Result<Vec<i32>, String> =
        resample(once.clone(), 16_000, 16_000, |_| Err("must not run".to_string()));
    assert_eq!(twice, Ok(once));
}
