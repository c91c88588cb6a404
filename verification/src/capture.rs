//! One capture session: what is done with each frame that the device
//! delivers.

use crate::assembler::{AssemblerView, WindowAssembler};
use crate::mixer::{is_mono_mix, is_whole_frame, mix_to_mono, MixError};
use crate::resampler::{is_resampled, resample, TARGET_SAMPLE_RATE};
use crate::threshold::{threshold_start, ThresholdAssembler};
use crate::window::{emitted, stamped, Emission, Window};
use vstd::prelude::*;

verus! {

/// The least length of a flushed window where nothing else is asked for:
/// 1.1 seconds at the target rate.
pub const DEFAULT_MIN_SAMPLES: usize = 17_600;

/// The number of calls that a flushed window must exceed where nothing else
/// is asked for.
pub const DEFAULT_MIN_CALLS: usize = 30;

/// The number of samples that `millis` milliseconds take at `sample_rate`
/// samples per second, rounded down.
pub open spec fn samples_in_spec(millis: u32, sample_rate: u32) -> nat {
    ((millis as nat) * (sample_rate as nat)) / 1000
}

/// The number of samples that `millis` milliseconds take at `sample_rate`
/// samples per second, rounded down.
pub fn samples_in(millis: u32, sample_rate: u32) -> (n: u64)
    ensures
        n == samples_in_spec(millis, sample_rate),
{
    assert((millis as nat) * (sample_rate as nat) <= 0xffff_ffff * 0xffff_ffff) by (nonlinear_arith)
        requires
            millis <= 0xffff_ffff,
            sample_rate <= 0xffff_ffff,
    ;
    let product: u64 = (millis as u64) * (sample_rate as u64);
    product / 1000
}

/// Why a frame brought the session to an end.
#[derive(Debug)]
pub enum CaptureError<E> {
    /// The device delivers a channel layout other than mono or stereo.
    UnsupportedChannels(u16),
    /// The stream could not be brought to the target rate.
    Resample(E),
}

/// The state of one capture session: the layout and rate of the device,
/// fixed for the session, and the assembler that gathers what comes of its
/// frames.
pub struct CaptureSession<T> {
    channels: u16,
    sample_rate: u32,
    assembler: WindowAssembler<T>,
}

/// What a [`CaptureSession`] holds, as mathematical values.
pub struct SessionView<T> {
    pub channels: u16,
    pub sample_rate: u32,
    pub assembler: AssemblerView<T>,
}

impl<T> View for CaptureSession<T> {
    type V = SessionView<T>;

    closed spec fn view(&self) -> SessionView<T> {
        SessionView {
            channels: self.channels,
            sample_rate: self.sample_rate,
            assembler: self.assembler@,
        }
    }
}

impl<T> SessionView<T> {
    /// The session after its assembler has taken `normalized`, and the
    /// emission.
    pub open spec fn fed(self, normalized: Seq<T>) -> (SessionView<T>, Option<Emission<T>>) {
        (
            SessionView { assembler: self.assembler.pushed(normalized).0, ..self },
            self.assembler.pushed(normalized).1,
        )
    }
}

/// `normalized` is what `frame` comes to by way of `mono`: `mono` is what
/// the frame mixes down to, and `normalized` is `mono` at the target rate.
pub open spec fn is_normalized_via<T, E, M: Fn(T, T) -> T, C: FnOnce(Vec<T>) -> Result<Vec<T>, E>>(
    frame: Seq<T>,
    channels: u16,
    sample_rate: u32,
    mean: M,
    convert: C,
    mono: Vec<T>,
    normalized: Vec<T>,
) -> bool {
    &&& is_mono_mix(frame, channels, mean, mono@)
    &&& is_resampled(mono, sample_rate, TARGET_SAMPLE_RATE, convert, Ok::<Vec<T>, E>(normalized))
}

/// `frame` is lost by way of `mono`: `mono` is what the frame mixes down
/// to, and `convert` fails on it with `error`.
pub open spec fn is_lost_via<T, E, M: Fn(T, T) -> T, C: FnOnce(Vec<T>) -> Result<Vec<T>, E>>(
    frame: Seq<T>,
    channels: u16,
    mean: M,
    convert: C,
    mono: Vec<T>,
    error: E,
) -> bool {
    &&& is_mono_mix(frame, channels, mean, mono@)
    &&& call_ensures(convert, (mono,), Err::<Vec<T>, E>(error))
}

/// `out` is what normalizing `frame` gives: the mono stream at the target
/// rate, or the reason why there is none.
pub open spec fn is_normalized<T, E, M: Fn(T, T) -> T, C: FnOnce(Vec<T>) -> Result<Vec<T>, E>>(
    frame: Seq<T>,
    channels: u16,
    sample_rate: u32,
    mean: M,
    convert: C,
    out: Result<Vec<T>, CaptureError<E>>,
) -> bool {
    match out {
        Ok(normalized) => exists|mono: Vec<T>| #[trigger]
            is_normalized_via(frame, channels, sample_rate, mean, convert, mono, normalized),
        Err(reason) => match reason {
            CaptureError::UnsupportedChannels(n) => n == channels && n != 1 && n != 2,
            CaptureError::Resample(e) => {
                &&& channels == 1 || channels == 2
                &&& sample_rate != TARGET_SAMPLE_RATE
                &&& exists|mono: Vec<T>| #[trigger]
                    is_lost_via(frame, channels, mean, convert, mono, e)
            },
        },
    }
}

/// Mixes a frame down to mono and brings it to the target rate.
///
/// `mean` gives the sample that stands for a left/right pair, and `convert`
/// brings a mono stream from `sample_rate` to the target rate; it is not
/// run where `sample_rate` is the target rate.
pub fn normalize<T: Copy, E, M: Fn(T, T) -> T, C: FnOnce(Vec<T>) -> Result<Vec<T>, E>>(
    frame: &[T],
    channels: u16,
    sample_rate: u32,
    mean: M,
    convert: C,
) -> (out: Result<Vec<T>, CaptureError<E>>)
    requires
        is_whole_frame(frame@.len(), channels),
        channels == 2 ==> forall|i: int|
            0 <= i < frame@.len() / 2 ==> call_requires(
                mean,
                (#[trigger] frame@[2 * i], frame@[2 * i + 1]),
            ),
        sample_rate != TARGET_SAMPLE_RATE ==> forall|mono: Vec<T>|
            is_mono_mix(frame@, channels, mean, mono@) ==> call_requires(convert, (mono,)),
    ensures
        is_normalized(frame@, channels, sample_rate, mean, convert, out),
        (channels == 1 || channels == 2) && sample_rate == TARGET_SAMPLE_RATE ==> out is Ok,
        channels == 1 && sample_rate == TARGET_SAMPLE_RATE ==> (out matches Ok(normalized)
            && normalized@ == frame@),
        out matches Err(CaptureError::UnsupportedChannels(_)) <==> channels != 1 && channels != 2,
{
    let mono = match mix_to_mono(frame, channels, mean) {
        Ok(mono) => mono,
        Err(MixError::UnsupportedChannels(n)) => {
            return Err(CaptureError::UnsupportedChannels(n));
        },
    };
    let ghost mixed = mono;
    match resample(mono, sample_rate, TARGET_SAMPLE_RATE, convert) {
        Ok(normalized) => {
            assert(exists|mono: Vec<T>| #[trigger]
                is_normalized_via(frame@, channels, sample_rate, mean, convert, mono, normalized))
                by {
                assert(is_normalized_via(
                    frame@,
                    channels,
                    sample_rate,
                    mean,
                    convert,
                    mixed,
                    normalized,
                ));
            }
            let out = Ok(normalized);
            assert(out matches Ok(samples) && samples == normalized);
            out
        },
        Err(e) => {
            assert(is_lost_via(frame@, channels, mean, convert, mixed, e));
            let out = Err(CaptureError::Resample(e));
            assert(out matches Err(CaptureError::Resample(reason)) && reason == e);
            out
        },
    }
}

impl<T: Copy> CaptureSession<T> {
    /// Whether the session can take one more frame.
    pub closed spec fn has_room(&self) -> bool {
        self.assembler.has_room()
    }

    /// A session on a device with `channels` channels at `sample_rate`
    /// samples per second, with the given assembler.
    pub fn new(channels: u16, sample_rate: u32, assembler: WindowAssembler<T>) -> (s: Self)
        ensures
            s@ == (SessionView { channels, sample_rate, assembler: assembler@ }),
            s.has_room() == assembler.has_room(),
    {
        CaptureSession { channels, sample_rate, assembler }
    }

    /// A session that flushes under the default thresholds.
    pub fn with_defaults(channels: u16, sample_rate: u32) -> (s: Self)
        ensures
            s@.channels == channels,
            s@.sample_rate == sample_rate,
            s@.assembler matches AssemblerView::Threshold(v) && v.min_samples == DEFAULT_MIN_SAMPLES
                && v.min_calls == DEFAULT_MIN_CALLS && v.state == threshold_start::<T>(),
            s.has_room(),
    {
        let assembler = WindowAssembler::Threshold(
            ThresholdAssembler::new(DEFAULT_MIN_SAMPLES, DEFAULT_MIN_CALLS),
        );
        CaptureSession { channels, sample_rate, assembler }
    }

    /// The number of channels of the device.
    pub fn channels(&self) -> (n: u16)
        ensures
            n == self@.channels,
    {
        self.channels
    }

    /// The rate of the device, in samples per second.
    pub fn sample_rate(&self) -> (n: u32)
        ensures
            n == self@.sample_rate,
    {
        self.sample_rate
    }

    /// The assembler of the session.
    pub fn assembler(&self) -> (a: &WindowAssembler<T>)
        ensures
            a@ == self@.assembler,
            a.has_room() == self.has_room(),
    {
        &self.assembler
    }

    /// Whether the session can take one more frame.
    pub fn can_take(&self) -> (b: bool)
        ensures
            b == self.has_room(),
    {
        self.assembler.can_push()
    }

    /// Takes one frame from the device: mixes it down to mono, brings it to
    /// the target rate and hands it to the assembler. Returns the window
    /// that is due, if any.
    ///
    /// `mean` and `convert` are as for [`normalize`]. A layout other than
    /// mono or stereo, and a failure of `convert`, end the session: the
    /// assembler is then left as it was.
    pub fn on_frame<E, M: Fn(T, T) -> T, C: FnOnce(Vec<T>) -> Result<Vec<T>, E>>(
        &mut self,
        frame: &[T],
        mean: M,
        convert: C,
        now: u64,
    ) -> (out: Result<Option<Window<T>>, CaptureError<E>>)
        requires
            old(self).has_room(),
            is_whole_frame(frame@.len(), old(self)@.channels),
            old(self)@.channels == 2 ==> forall|i: int|
                0 <= i < frame@.len() / 2 ==> call_requires(
                    mean,
                    (#[trigger] frame@[2 * i], frame@[2 * i + 1]),
                ),
            old(self)@.sample_rate != TARGET_SAMPLE_RATE ==> forall|mono: Vec<T>|
                is_mono_mix(frame@, old(self)@.channels, mean, mono@) ==> call_requires(
                    convert,
                    (mono,),
                ),
        ensures
            match out {
                Ok(window) => {
                    &&& stamped(window, now)
                    &&& exists|normalized: Vec<T>|
                        {
                            &&& #[trigger] is_normalized(
                                frame@,
                                old(self)@.channels,
                                old(self)@.sample_rate,
                                mean,
                                convert,
                                Ok::<Vec<T>, CaptureError<E>>(normalized),
                            )
                            &&& (final(self)@, emitted(window)) == old(self)@.fed(normalized@)
                        }
                },
                Err(e) => {
                    &&& is_normalized(
                        frame@,
                        old(self)@.channels,
                        old(self)@.sample_rate,
                        mean,
                        convert,
                        Err::<Vec<T>, CaptureError<E>>(e),
                    )
                    &&& final(self)@ == old(self)@
                    &&& final(self).has_room()
                },
            },
            (old(self)@.channels == 1 || old(self)@.channels == 2) && old(self)@.sample_rate
                == TARGET_SAMPLE_RATE ==> out is Ok,
            old(self)@.channels == 1 && old(self)@.sample_rate == TARGET_SAMPLE_RATE ==> (
            out matches Ok(window) && (final(self)@, emitted(window)) == old(self)@.fed(frame@)),
            out matches Err(CaptureError::UnsupportedChannels(_)) <==> old(self)@.channels != 1
                && old(self)@.channels != 2,
    {
        match normalize(frame, self.channels, self.sample_rate, mean, convert) {
            Ok(normalized) => {
                let window = self.assembler.push(normalized.as_slice(), now);
                Ok(window)
            },
            Err(e) => Err(e),
        }
    }
}

} // verus!
