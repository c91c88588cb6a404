//! Brings a mono stream to the target rate.

use vstd::prelude::*;

verus! {

/// The rate, in samples per second, at which the rest of the pipeline works.
pub const TARGET_SAMPLE_RATE: u32 = 16_000;

/// `out` is what resampling `samples` from `rate_in` to `rate_out` gives when
/// `convert` does the rate conversion: the samples themselves where the rates
/// agree, and otherwise whatever `convert` makes of them.
pub open spec fn is_resampled<T, E, F: FnOnce(Vec<T>) -> Result<Vec<T>, E>>(
    samples: Vec<T>,
    rate_in: u32,
    rate_out: u32,
    convert: F,
    out: Result<Vec<T>, E>,
) -> bool {
    if rate_in == rate_out {
        out == Ok::<Vec<T>, E>(samples)
    } else {
        call_ensures(convert, (samples,), out)
    }
}

/// Resamples `samples` from `rate_in` to `rate_out`.
///
/// Where the two rates agree nothing is computed and the samples come back
/// untouched. Otherwise `convert` is run once on them, and its failure is the
/// failure of the pipeline.
pub fn resample<T, E, F: FnOnce(Vec<T>) -> Result<Vec<T>, E>>(
    samples: Vec<T>,
    rate_in: u32,
    rate_out: u32,
    convert: F,
) -> (out: Result<Vec<T>, E>)
    requires
        rate_in != rate_out ==> call_requires(convert, (samples,)),
    ensures
        is_resampled(samples, rate_in, rate_out, convert, out),
        rate_in == rate_out ==> out == Ok::<Vec<T>, E>(samples),
{
    if rate_in == rate_out {
        Ok(samples)
    } else {
        convert(samples)
    }
}

/// Resampling is idempotent: a stream that was brought to `rate` and is
/// resampled to `rate` again comes back as it is, whatever converter is at
/// hand the second time.
pub proof fn lemma_resample_idempotent<
    T,
    E,
    F: FnOnce(Vec<T>) -> Result<Vec<T>, E>,
    G: FnOnce(Vec<T>) -> Result<Vec<T>, E>,
>(
    samples: Vec<T>,
    rate_in: u32,
    rate: u32,
    first: F,
    once: Vec<T>,
    second: G,
    twice: Result<Vec<T>, E>,
)
    requires
        is_resampled(samples, rate_in, rate, first, Ok::<Vec<T>, E>(once)),
        is_resampled(once, rate, rate, second, twice),
    ensures
        twice == Ok::<Vec<T>, E>(once),
        twice matches Ok(v) && v@ == once@,
{
}

} // verus!
