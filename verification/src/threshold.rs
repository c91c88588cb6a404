//! The threshold-flush policy: everything that has gathered is emitted as one
//! window once it is long enough and has come in enough calls.

use crate::buffer::{append_all, joined};
use crate::window::{emitted, stamped, Emission, Window};
use vstd::prelude::*;

verus! {

/// The samples gathered since the last flush, the number of calls that
/// brought them, and the number of the next window.
pub struct ThresholdState<T> {
    pub buffer: Seq<T>,
    pub calls: nat,
    pub next_seq: nat,
}

/// The state before any sample has come.
pub open spec fn threshold_start<T>() -> ThresholdState<T> {
    ThresholdState { buffer: Seq::empty(), calls: 0, next_seq: 0 }
}

/// Whether a flush is due: the buffer has reached the least duration, and
/// more calls than the least number have gone into it.
pub open spec fn flush_due(min_samples: nat, min_calls: nat, buffered: nat, calls: nat) -> bool {
    calls > min_calls && buffered >= min_samples
}

/// One batch under the threshold-flush policy.
///
/// The batch is appended and the call counted. If a flush is then due, the
/// whole buffer is emitted as one window, and buffer and counter start
/// over.
pub open spec fn threshold_step<T>(
    min_samples: nat,
    min_calls: nat,
    state: ThresholdState<T>,
    batch: Seq<T>,
) -> (ThresholdState<T>, Option<Emission<T>>) {
    let buffer = state.buffer + batch;
    let calls = state.calls + 1;
    if flush_due(min_samples, min_calls, buffer.len(), calls) {
        (
            ThresholdState { buffer: Seq::empty(), calls: 0, next_seq: state.next_seq + 1 },
            Some(Emission { samples: buffer, seq: state.next_seq }),
        )
    } else {
        (ThresholdState { buffer, calls, next_seq: state.next_seq }, None)
    }
}

/// The state after all of `batches` have come to a fresh assembler, and the
/// windows emitted on the way, in order.
pub open spec fn threshold_run<T>(min_samples: nat, min_calls: nat, batches: Seq<Seq<T>>) -> (
    ThresholdState<T>,
    Seq<Emission<T>>,
)
    decreases batches.len(),
{
    if batches.len() == 0 {
        (threshold_start(), Seq::empty())
    } else {
        let before = threshold_run(min_samples, min_calls, batches.drop_last());
        let step = threshold_step(min_samples, min_calls, before.0, batches.last());
        match step.1 {
            Some(e) => (step.0, before.1.push(e)),
            None => (step.0, before.1),
        }
    }
}

/// The samples of all the windows, one window after another.
pub open spec fn emitted_samples<T>(windows: Seq<Emission<T>>) -> Seq<T>
    decreases windows.len(),
{
    if windows.len() == 0 {
        Seq::empty()
    } else {
        emitted_samples(windows.drop_last()) + windows.last().samples
    }
}

/// Gathers batches and flushes them as one window when the thresholds are
/// met.
pub struct ThresholdAssembler<T> {
    buffer: Vec<T>,
    calls: usize,
    min_samples: usize,
    min_calls: usize,
    next_seq: u64,
}

/// What a [`ThresholdAssembler`] holds, as mathematical values.
pub struct ThresholdView<T> {
    pub state: ThresholdState<T>,
    pub min_samples: nat,
    pub min_calls: nat,
}

impl<T> ThresholdView<T> {
    /// The assembler and the emission after one more batch.
    pub open spec fn pushed(self, batch: Seq<T>) -> (ThresholdView<T>, Option<Emission<T>>) {
        let step = threshold_step(self.min_samples, self.min_calls, self.state, batch);
        (ThresholdView { state: step.0, ..self }, step.1)
    }
}

impl<T> View for ThresholdAssembler<T> {
    type V = ThresholdView<T>;

    closed spec fn view(&self) -> ThresholdView<T> {
        ThresholdView {
            state: ThresholdState {
                buffer: self.buffer@,
                calls: self.calls as nat,
                next_seq: self.next_seq as nat,
            },
            min_samples: self.min_samples as nat,
            min_calls: self.min_calls as nat,
        }
    }
}

impl<T: Copy> ThresholdAssembler<T> {
    /// Whether the assembler can take one more batch: neither the count of
    /// calls nor the numbering of windows is at the end of its range.
    pub open spec fn has_room(&self) -> bool {
        &&& self@.state.calls < usize::MAX
        &&& self@.state.next_seq < u64::MAX
    }

    /// An assembler that flushes once at least `min_samples` samples have
    /// gathered in more than `min_calls` calls.
    pub fn new(min_samples: usize, min_calls: usize) -> (a: Self)
        ensures
            a@.state == threshold_start::<T>(),
            a@.min_samples == min_samples,
            a@.min_calls == min_calls,
            a.has_room(),
    {
        ThresholdAssembler { buffer: Vec::new(), calls: 0, min_samples, min_calls, next_seq: 0 }
    }

    /// The least number of samples in a window.
    pub fn min_samples(&self) -> (n: usize)
        ensures
            n == self@.min_samples,
    {
        self.min_samples
    }

    /// The number of calls that a window must exceed.
    pub fn min_calls(&self) -> (n: usize)
        ensures
            n == self@.min_calls,
    {
        self.min_calls
    }

    /// The number of samples gathered since the last flush.
    pub fn buffered(&self) -> (n: usize)
        ensures
            n == self@.state.buffer.len(),
    {
        self.buffer.len()
    }

    /// The number of calls since the last flush.
    pub fn calls(&self) -> (n: usize)
        ensures
            n == self@.state.calls,
    {
        self.calls
    }

    /// The number that the next window will carry, which is also the number
    /// of windows emitted so far.
    pub fn next_seq(&self) -> (n: u64)
        ensures
            n == self@.state.next_seq,
    {
        self.next_seq
    }

    /// Whether the assembler can take one more batch.
    pub fn can_push(&self) -> (b: bool)
        ensures
            b == self.has_room(),
    {
        self.calls < usize::MAX && self.next_seq < u64::MAX
    }

    /// Takes one batch of normalized samples and flushes if the thresholds
    /// are met.
    pub fn push(&mut self, batch: &[T], now: u64) -> (out: Option<Window<T>>)
        requires
            old(self).has_room(),
        ensures
            (final(self)@, emitted(out)) == old(self)@.pushed(batch@),
            stamped(out, now),
            out is Some <==> flush_due(
                old(self)@.min_samples,
                old(self)@.min_calls,
                old(self)@.state.buffer.len() + batch@.len(),
                old(self)@.state.calls + 1,
            ),
            out is Some ==> final(self)@.state.buffer.len() == 0 && final(self)@.state.calls == 0,
    {
        append_all(&mut self.buffer, batch);
        self.calls = self.calls + 1;
        if self.calls > self.min_calls && self.buffer.len() >= self.min_samples {
            let mut samples: Vec<T> = Vec::new();
            std::mem::swap(&mut self.buffer, &mut samples);
            let seq: u64 = self.next_seq;
            self.calls = 0;
            self.next_seq = seq + 1;
            Some(Window::new(samples, seq, now))
        } else {
            None
        }
    }
}

/// A batch is flushed exactly when, with it, both thresholds are met at
/// once; and a flush leaves the buffer empty and the count of calls at
/// zero.
pub proof fn lemma_flush_only_when_due<T>(
    min_samples: nat,
    min_calls: nat,
    state: ThresholdState<T>,
    batch: Seq<T>,
)
    ensures
        ({
            let step = threshold_step(min_samples, min_calls, state, batch);
            &&& step.1 is Some <==> state.calls + 1 > min_calls && state.buffer.len() + batch.len()
                >= min_samples
            &&& step.1 matches Some(e) ==> {
                &&& e.samples == state.buffer + batch
                &&& e.seq == state.next_seq
                &&& step.0.buffer.len() == 0
                &&& step.0.calls == 0
                &&& step.0.next_seq == state.next_seq + 1
            }
            &&& step.1 is None ==> {
                &&& step.0.buffer == state.buffer + batch
                &&& step.0.calls == state.calls + 1
                &&& step.0.next_seq == state.next_seq
            }
        }),
{
}

/// No sample is lost, doubled or moved: the windows of a run, one after
/// another, followed by what is still in the buffer, are the stream as it
/// was fed. Every window meets the least duration, and the windows are
/// numbered 0, 1, 2, ... in the order of emission.
pub proof fn lemma_threshold_run_keeps_stream<T>(
    min_samples: nat,
    min_calls: nat,
    batches: Seq<Seq<T>>,
)
    ensures
        ({
            let run = threshold_run(min_samples, min_calls, batches);
            &&& emitted_samples(run.1) + run.0.buffer == joined(batches)
            &&& run.0.next_seq == run.1.len()
            &&& run.0.calls <= batches.len()
            &&& forall|i: int|
                0 <= i < run.1.len() ==> (#[trigger] run.1[i]).seq == i && run.1[i].samples.len()
                    >= min_samples
        }),
    decreases batches.len(),
{
    if batches.len() > 0 {
        let earlier = batches.drop_last();
        let batch = batches.last();
        lemma_threshold_run_keeps_stream(min_samples, min_calls, earlier);
        let before = threshold_run(min_samples, min_calls, earlier);
        let step = threshold_step(min_samples, min_calls, before.0, batch);
        let run = threshold_run(min_samples, min_calls, batches);
        assert(joined(batches) == joined(earlier) + batch);
        match step.1 {
            Some(e) => {
                assert(run.1.drop_last() =~= before.1);
                assert(emitted_samples(run.1) + run.0.buffer =~= (emitted_samples(before.1)
                    + before.0.buffer) + batch);
            },
            None => {
                assert(emitted_samples(run.1) + run.0.buffer =~= (emitted_samples(before.1)
                    + before.0.buffer) + batch);
            },
        }
    }
}

} // verus!
