use live_translate::assembler::WindowAssembler;
use live_translate::capture::{
    normalize, samples_in, CaptureError, CaptureSession, DEFAULT_MIN_CALLS, DEFAULT_MIN_SAMPLES,
};
use live_translate::sliding::SlidingAssembler;
use live_translate::threshold::ThresholdAssembler;

fn mean(left: f32, right: f32) -> f32 {
    (left + right) * 0.5
}

fn keep(samples: Vec<f32>) -> Result<Vec<f32>, String> {
    Ok(samples)
}

/// Keeps every third sample: enough of a converter from 48 kHz to 16 kHz
/// to see what reaches the assembler.
fn every_third(samples: Vec<f32>) -> Result<Vec<f32>, String> {
    Ok(samples.into_iter().step_by(3).collect())
}

#[test]
fn default_thresholds_are_those_of_the_capture() {
    assert_eq!(DEFAULT_MIN_SAMPLES, 17_600);
    assert_eq!(DEFAULT_MIN_CALLS, 30);
}

#[test]
fn samples_in_a_duration() {
    assert_eq!(samples_in(1_100, 16_000), 17_600);
    assert_eq!(samples_in(1_000, 16_000), 16_000);
    assert_eq!(samples_in(333, 16_000), 5_328);
    assert_eq!(samples_in(1, 999), 0);
    assert_eq!(samples_in(0, 48_000), 0);
    assert_eq!(samples_in(u32::MAX, u32::MAX), 18_446_744_065_119_617);
}

#[test]
fn normalize_keeps_a_mono_frame_at_the_target_rate() {
    let frame = [0.1f32, 0.2, 0.3];
    let out = normalize(&frame, 1, 16_000, mean, |_| Err("must not run".to_string()));
    assert_eq!(out.unwrap(), vec![0.1, 0.2, 0.3]);
}

#[test]
fn normalize_mixes_then_converts() {
    let frame = [1.0f32, 0.0, 0.5, 0.5, -1.0, 1.0, 0.25, 0.75, 0.0, 0.0, 1.0, 1.0, 0.5, -0.5, 0.0, 1.0];
    // mono: 0.5, 0.5, 0.0, 0.5, 0.0, 1.0, 0.0, 0.5
    let out = normalize(&frame, 2, 48_000, mean, every_third);
    assert_eq!(out.unwrap(), vec![0.5, 0.5, 0.0]);
}

#[test]
fn normalize_refuses_other_layouts_before_converting() {
    let frame = [0.0f32; 6];
    let out = normalize(&frame, 3, 48_000, mean, |_| Err("must not run".to_string()));
    assert!(matches!(out, Err(CaptureError::UnsupportedChannels(3))));
}

#[test]
fn normalize_hands_on_the_converter_failure() {
    let frame = [0.0f32; 6];
    let out = normalize(&frame, 2, 44_100, mean, |_| Err("invalid rate ratio".to_string()));
    match out {
        Err(CaptureError::Resample(reason)) => assert_eq!(reason, "invalid rate ratio"),
        other => panic!("unexpected outcome: {:?}", other),
    }
}

#[test]
fn session_reports_its_device() {
    let s: CaptureSession<f32> = CaptureSession::with_defaults(2, 48_000);
    assert_eq!(s.channels(), 2);
    assert_eq!(s.sample_rate(), 48_000);
    assert!(s.can_take());
    match s.assembler() {
        WindowAssembler::Threshold(a) => {
            assert_eq!(a.min_samples(), 17_600);
            assert_eq!(a.min_calls(), 30);
            assert_eq!(a.buffered(), 0);
        }
        WindowAssembler::Sliding(_) => panic!("the default policy is threshold-flush"),
    }
}

#[test]
fn session_with_defaults_flushes_like_the_capture() {
    let mut s: CaptureSession<f32> = CaptureSession::with_defaults(1, 16_000);
    let frame = vec![0.0f32; 320];
    let mut flushed_on = Vec::new();
    for call in 1..=120u64 {
        if let Some(w) = s.on_frame(&frame, mean, keep, call).unwrap() {
            flushed_on.push((call, w.len()));
        }
    }
    assert_eq!(flushed_on, vec![(55, 17_600), (110, 17_600)]);
}

#[test]
fn session_feeds_the_sliding_assembler() {
    let assembler = WindowAssembler::Sliding(SlidingAssembler::new(16_000, 5_333, 0.0f32));
    let mut s = CaptureSession::new(1, 16_000, assembler);
    let frame = vec![0.5f32; 1_000];
    let mut emitted_on = Vec::new();
    for call in 1..=27u64 {
        if let Some(w) = s.on_frame(&frame, mean, keep, call).unwrap() {
            assert_eq!(w.len(), 16_000);
            assert_eq!(w.created_at(), call);
            emitted_on.push(call);
        }
    }
    assert_eq!(emitted_on, vec![16, 22, 27]);
    assert_eq!(s.assembler().next_seq(), 3);
}

#[test]
fn session_mixes_and_converts_each_frame() {
    let assembler = WindowAssembler::Threshold(ThresholdAssembler::new(4, 1));
    let mut s = CaptureSession::new(2, 48_000, assembler);
    let a = [1.0f32, 0.0, 9.0, 9.0, 9.0, 9.0, -1.0, 0.0, 9.0, 9.0, 9.0, 9.0];
    let b = [0.25f32, 0.25, 9.0, 9.0, 9.0, 9.0, 0.0, 1.0, 9.0, 9.0, 9.0, 9.0];
    assert!(s.on_frame(&a, mean, every_third, 0).unwrap().is_none());
    let w = s.on_frame(&b, mean, every_third, 1).unwrap().unwrap();
    assert_eq!(w.samples(), &vec![0.5, -0.5, 0.25, 0.5]);
    assert_eq!(w.seq(), 0);
    assert_eq!(w.created_at(), 1);
}

#[test]
fn session_ends_on_an_unsupported_layout() {
    let mut s: CaptureSession<f32> = CaptureSession::with_defaults(6, 16_000);
    let frame = [0.0f32; 12];
    let out = s.on_frame(&frame, mean, keep, 0);
    assert!(matches!(out, Err(CaptureError::UnsupportedChannels(6))));
    match s.assembler() {
        WindowAssembler::Threshold(a) => {
            assert_eq!(a.buffered(), 0);
            assert_eq!(a.calls(), 0);
        }
        WindowAssembler::Sliding(_) => panic!("the default policy is threshold-flush"),
    }
}

#[test]
fn failed_conversion_leaves_the_assembler_as_it_was() {
    let assembler = WindowAssembler::Threshold(ThresholdAssembler::new(100, 5));
    let mut s = CaptureSession::new(1, 44_100, assembler);
    let frame = [0.5f32; 10];
    assert!(s.on_frame(&frame, mean, keep, 0).unwrap().is_none());
    let out = s.on_frame(&frame, mean, |_| Err("no converter".to_string()), 1);
    match out {
        Err(CaptureError::Resample(reason)) => assert_eq!(reason, "no converter"),
        other => panic!("unexpected outcome: {:?}", other.map(|w| w.map(|w| w.len()))),
    }
    match s.assembler() {
        WindowAssembler::Threshold(a) => {
            assert_eq!(a.buffered(), 10);
            assert_eq!(a.calls(), 1);
        }
        WindowAssembler::Sliding(_) => panic!("the session was made with a threshold assembler"),
    }
}

#[test]
fn assembler_policy_is_chosen_by_the_caller() {
    let mut sliding = WindowAssembler::Sliding(SlidingAssembler::new(2, 1, 0u8));
    let mut threshold = WindowAssembler::Threshold(ThresholdAssembler::new(2, 0));
    assert!(sliding.can_push() && threshold.can_push());
    assert!(sliding.push(&[1], 0).is_none());
    assert!(threshold.push(&[1], 0).is_none());
    assert_eq!(sliding.push(&[2, 3], 1).unwrap().into_samples(), vec![2, 3]);
    assert_eq!(threshold.push(&[2, 3], 1).unwrap().into_samples(), vec![1, 2, 3]);
    assert_eq!(sliding.next_seq(), 1);
    assert_eq!(threshold.next_seq(), 1);
}
