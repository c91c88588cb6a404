use live_translate::mixer::{mix_to_mono, stereo_to_mono, MixError};

fn mean(left: f32, right: f32) -> f32 {
    (left + right) * 0.5
}

#[test]
fn mono_frame_comes_back_as_it_is() {
    let frame = [0.25f32, -0.5, 0.75, 1.0, -1.0];
    let mono = mix_to_mono(&frame, 1, mean).unwrap();
    assert_eq!(mono, vec![0.25, -0.5, 0.75, 1.0, -1.0]);
}

#[test]
fn stereo_frame_is_averaged_pair_by_pair() {
    let frame = [1.0f32, -1.0, 0.5, -0.5];
    let mono = mix_to_mono(&frame, 2, mean).unwrap();
    assert_eq!(mono, vec![0.0, 0.0]);
}

#[test]
fn stereo_pairs_keep_their_order() {
    let frame = [0.2f32, 0.4, -0.6, -0.2, 1.0, 0.0];
    let mono = mix_to_mono(&frame, 2, mean).unwrap();
    assert_eq!(mono.len(), 3);
    assert!((mono[0] - 0.3).abs() < 1e-6);
    assert!((mono[1] + 0.4).abs() < 1e-6);
    assert!((mono[2] - 0.5).abs() < 1e-6);
}

#[test]
fn output_length_is_input_length_over_channels() {
    for pairs in [0usize, 1, 2, 7, 160, 480] {
        let stereo = vec![0.5f32; 2 * pairs];
        assert_eq!(mix_to_mono(&stereo, 2, mean).unwrap().len(), 2 * pairs / 2);
        assert_eq!(mix_to_mono(&stereo, 1, mean).unwrap().len(), 2 * pairs);
    }
}

#[test]
fn empty_frame_gives_empty_output() {
    let frame: [f32; 0] = [];
    assert!(mix_to_mono(&frame, 1, mean).unwrap().is_empty());
    assert!(mix_to_mono(&frame, 2, mean).unwrap().is_empty());
}

#[test]
fn other_layouts_are_refused() {
    let frame = [0.0f32; 12];
    assert_eq!(mix_to_mono(&frame, 0, mean), Err(MixError::UnsupportedChannels(0)));
    assert_eq!(mix_to_mono(&frame, 3, mean), Err(MixError::UnsupportedChannels(3)));
    assert_eq!(mix_to_mono(&frame, 6, mean), Err(MixError::UnsupportedChannels(6)));
}

#[test]
fn stereo_to_mono_uses_the_given_mean_once_per_pair() {
    let frame = [1i32, 3, 10, 20, -4, 4];
    let mono = stereo_to_mono(&frame, |l, r| (l + r) / 2);
    assert_eq!(mono, vec![2, 15, 0]);
}

#[test]
fn mixer_works_on_any_sample_type() {
    let frame = [100i16, 300, -50, 50];
    let mono = mix_to_mono(&frame, 2, |l, r| (l + r) / 2).unwrap();
    assert_eq!(mono, vec![200, 0]);
}
