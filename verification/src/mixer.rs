//! Collapses an interleaved frame to a single channel.

use vstd::prelude::*;
use vstd::slice::slice_to_vec;

verus! {

/// Why a frame could not be mixed.
#[derive(Debug, Clone, Copy, PartialEq, Eq)]
pub enum MixError {
    /// The device delivers a channel layout other than mono or stereo.
    UnsupportedChannels(u16),
}

/// Whether a frame of `len` samples splits evenly over `channels` channels.
pub open spec fn is_whole_frame(len: nat, channels: u16) -> bool {
    channels == 2 ==> len % 2 == 0
}

/// `mono` is what a stereo `frame` mixes down to: one sample for each
/// left/right pair, in order, each produced by `mean` from its pair.
pub open spec fn is_stereo_mix<T, F: Fn(T, T) -> T>(frame: Seq<T>, mean: F, mono: Seq<T>) -> bool {
    &&& mono.len() == frame.len() / 2
    &&& forall|i: int|
        0 <= i < mono.len() ==> call_ensures(mean, (frame[2 * i], frame[2 * i + 1]), #[trigger] mono[i])
}

/// `mono` is what `frame` with `channels` channels mixes down to.
pub open spec fn is_mono_mix<T, F: Fn(T, T) -> T>(
    frame: Seq<T>,
    channels: u16,
    mean: F,
    mono: Seq<T>,
) -> bool {
    if channels == 1 {
        mono == frame
    } else {
        channels == 2 && is_stereo_mix(frame, mean, mono)
    }
}

/// Mixes one interleaved stereo frame down to mono.
pub fn stereo_to_mono<T: Copy, F: Fn(T, T) -> T>(stereo: &[T], mean: F) -> (mono: Vec<T>)
    requires
        stereo@.len() % 2 == 0,
        forall|i: int|
            0 <= i < stereo@.len() / 2 ==> call_requires(
                mean,
                (#[trigger] stereo@[2 * i], stereo@[2 * i + 1]),
            ),
    ensures
        is_stereo_mix(stereo@, mean, mono@),
{
    let pairs: usize = stereo.len() / 2;
    let mut mono: Vec<T> = Vec::with_capacity(pairs);
    let mut i: usize = 0;
    while i < pairs
        invariant
            pairs == stereo@.len() / 2,
            stereo@.len() % 2 == 0,
            i <= pairs,
            mono@.len() == i,
            forall|k: int|
                0 <= k < stereo@.len() / 2 ==> call_requires(
                    mean,
                    (#[trigger] stereo@[2 * k], stereo@[2 * k + 1]),
                ),
            forall|k: int|
                0 <= k < i ==> call_ensures(
                    mean,
                    (stereo@[2 * k], stereo@[2 * k + 1]),
                    #[trigger] mono@[k],
                ),
        decreases pairs - i,
    {
        let left = stereo[2 * i];
        let right = stereo[2 * i + 1];
        let m = mean(left, right);
        mono.push(m);
        i += 1;
    }
    mono
}

/// Mixes one frame down to mono.
///
/// A mono frame comes back as it is. A stereo frame gives one sample per
/// left/right pair. Any other layout is refused.
pub fn mix_to_mono<T: Copy, F: Fn(T, T) -> T>(frame: &[T], channels: u16, mean: F) -> (out: Result<
    Vec<T>,
    MixError,
>)
    requires
        is_whole_frame(frame@.len(), channels),
        channels == 2 ==> forall|i: int|
            0 <= i < frame@.len() / 2 ==> call_requires(
                mean,
                (#[trigger] frame@[2 * i], frame@[2 * i + 1]),
            ),
    ensures
        out is Ok <==> (channels == 1 || channels == 2),
        out matches Ok(mono) ==> is_mono_mix(frame@, channels, mean, mono@) && mono@.len()
            == frame@.len() / (channels as nat),
        out matches Err(e) ==> e == MixError::UnsupportedChannels(channels),
{
    if channels == 1 {
        Ok(slice_to_vec(frame))
    } else if channels == 2 {
        Ok(stereo_to_mono(frame, mean))
    } else {
        Err(MixError::UnsupportedChannels(channels))
    }
}

} // verus!
