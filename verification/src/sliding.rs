//! The sliding-window policy: fixed-length windows over the most recent
//! samples, cut at a stride of one hop.

use crate::buffer::{
    append_all, copy_latest, drop_oldest, joined, keep_latest, latest, pad_to, padded,
    without_oldest,
};
use crate::window::{emission_of, emitted, stamped, Emission, Window};
use vstd::prelude::*;

verus! {

/// The trailing samples that the policy keeps, and the number of the next
/// window.
pub struct SlidingState<T> {
    pub buffer: Seq<T>,
    pub next_seq: nat,
}

/// The state before any sample has come.
pub open spec fn sliding_start<T>() -> SlidingState<T> {
    SlidingState { buffer: Seq::empty(), next_seq: 0 }
}

/// One batch under the sliding policy.
///
/// The batch is appended and the buffer cut back to its bound of one window
/// and one hop. If it then holds a full window, the most recent window is
/// emitted and the buffer gives up its oldest hop.
pub open spec fn sliding_step<T>(window: nat, hop: nat, state: SlidingState<T>, batch: Seq<T>) -> (
    SlidingState<T>,
    Option<Emission<T>>,
) {
    let filled = latest(state.buffer + batch, window + hop);
    if filled.len() >= window {
        (
            SlidingState { buffer: without_oldest(filled, hop), next_seq: state.next_seq + 1 },
            Some(Emission { samples: latest(filled, window), seq: state.next_seq }),
        )
    } else {
        (SlidingState { buffer: filled, next_seq: state.next_seq }, None)
    }
}

/// A window asked for at once, whatever the buffer holds: its most recent
/// samples, at most one window of them, followed by as much silence as it
/// takes to fill the window. The buffer gives up its oldest hop as after any
/// emission.
pub open spec fn sliding_request<T>(window: nat, hop: nat, silence: T, state: SlidingState<T>) -> (
    SlidingState<T>,
    Emission<T>,
) {
    (
        SlidingState { buffer: without_oldest(state.buffer, hop), next_seq: state.next_seq + 1 },
        Emission { samples: padded(latest(state.buffer, window), window, silence), seq: state.next_seq },
    )
}

/// The state after all of `batches` have come to a fresh assembler, and the
/// windows emitted on the way, in order.
pub open spec fn sliding_run<T>(window: nat, hop: nat, batches: Seq<Seq<T>>) -> (
    SlidingState<T>,
    Seq<Emission<T>>,
)
    decreases batches.len(),
{
    if batches.len() == 0 {
        (sliding_start(), Seq::empty())
    } else {
        let before = sliding_run(window, hop, batches.drop_last());
        let step = sliding_step(window, hop, before.0, batches.last());
        match step.1 {
            Some(e) => (step.0, before.1.push(e)),
            None => (step.0, before.1),
        }
    }
}

/// Assembles fixed-length, overlapping windows from batches of any length.
pub struct SlidingAssembler<T> {
    buffer: Vec<T>,
    window_samples: usize,
    hop_samples: usize,
    next_seq: u64,
    silence: T,
}

/// What a [`SlidingAssembler`] holds, as mathematical values.
pub struct SlidingView<T> {
    pub state: SlidingState<T>,
    pub window_samples: nat,
    pub hop_samples: nat,
    pub silence: T,
}

impl<T> SlidingView<T> {
    /// The assembler and the emission after one more batch.
    pub open spec fn pushed(self, batch: Seq<T>) -> (SlidingView<T>, Option<Emission<T>>) {
        let step = sliding_step(self.window_samples, self.hop_samples, self.state, batch);
        (SlidingView { state: step.0, ..self }, step.1)
    }

    /// The assembler and the emission after a window was asked for.
    pub open spec fn requested(self) -> (SlidingView<T>, Emission<T>) {
        let step = sliding_request(self.window_samples, self.hop_samples, self.silence, self.state);
        (SlidingView { state: step.0, ..self }, step.1)
    }
}

impl<T> View for SlidingAssembler<T> {
    type V = SlidingView<T>;

    closed spec fn view(&self) -> SlidingView<T> {
        SlidingView {
            state: SlidingState { buffer: self.buffer@, next_seq: self.next_seq as nat },
            window_samples: self.window_samples as nat,
            hop_samples: self.hop_samples as nat,
            silence: self.silence,
        }
    }
}

impl<T: Copy> SlidingAssembler<T> {
    /// The buffer never holds more than one window and one hop.
    pub open spec fn wf(&self) -> bool {
        self@.state.buffer.len() <= self@.window_samples + self@.hop_samples
    }

    /// Whether the numbering of windows has not reached the end of its
    /// range, so that one more window can be emitted.
    pub open spec fn has_room(&self) -> bool {
        self@.state.next_seq < u64::MAX
    }

    /// An assembler of windows of `window_samples` samples that start
    /// `hop_samples` apart, with `silence` as the sample to pad with.
    pub fn new(window_samples: usize, hop_samples: usize, silence: T) -> (a: Self)
        ensures
            a.wf(),
            a@.state == sliding_start::<T>(),
            a@.window_samples == window_samples,
            a@.hop_samples == hop_samples,
            a@.silence == silence,
            a.has_room(),
    {
        SlidingAssembler { buffer: Vec::new(), window_samples, hop_samples, next_seq: 0, silence }
    }

    /// The length of every window.
    pub fn window_samples(&self) -> (n: usize)
        ensures
            n == self@.window_samples,
    {
        self.window_samples
    }

    /// The stride between the starts of consecutive windows.
    pub fn hop_samples(&self) -> (n: usize)
        ensures
            n == self@.hop_samples,
    {
        self.hop_samples
    }

    /// The number of samples held back.
    pub fn buffered(&self) -> (n: usize)
        ensures
            n == self@.state.buffer.len(),
    {
        self.buffer.len()
    }

    /// The number that the next window will carry, which is also the number
    /// of windows emitted so far.
    pub fn next_seq(&self) -> (n: u64)
        ensures
            n == self@.state.next_seq,
    {
        self.next_seq
    }

    /// Whether one more window can be emitted.
    pub fn can_push(&self) -> (b: bool)
        ensures
            b == self.has_room(),
    {
        self.next_seq < u64::MAX
    }

    /// Takes one batch of normalized samples and emits a window if one is
    /// due.
    pub fn push(&mut self, batch: &[T], now: u64) -> (out: Option<Window<T>>)
        requires
            old(self).has_room(),
        ensures
            final(self).wf(),
            (final(self)@, emitted(out)) == old(self)@.pushed(batch@),
            stamped(out, now),
            out matches Some(w) ==> w@.samples.len() == old(self)@.window_samples,
    {
        append_all(&mut self.buffer, batch);
        let filled: usize = self.buffer.len();
        let bound: usize = self.window_samples.saturating_add(self.hop_samples);
        keep_latest(&mut self.buffer, bound);
        assert(self.buffer@ == latest(
            old(self).buffer@ + batch@,
            (self.window_samples + self.hop_samples) as nat,
        )) by {
            assert(filled <= usize::MAX);
        }
        if self.buffer.len() >= self.window_samples {
            let samples = copy_latest(&self.buffer, self.window_samples);
            let seq: u64 = self.next_seq;
            drop_oldest(&mut self.buffer, self.hop_samples);
            self.next_seq = seq + 1;
            Some(Window::new(samples, seq, now))
        } else {
            None
        }
    }

    /// Emits a window at once, padded with silence where the buffer holds
    /// less than a window.
    pub fn request_window(&mut self, now: u64) -> (w: Window<T>)
        requires
            old(self).wf(),
            old(self).has_room(),
        ensures
            final(self).wf(),
            (final(self)@, emission_of(w@)) == old(self)@.requested(),
            w@.samples.len() == old(self)@.window_samples,
            w@.created_at == now,
    {
        let mut samples = copy_latest(&self.buffer, self.window_samples);
        pad_to(&mut samples, self.window_samples, self.silence);
        let seq: u64 = self.next_seq;
        drop_oldest(&mut self.buffer, self.hop_samples);
        self.next_seq = seq + 1;
        Window::new(samples, seq, now)
    }
}

/// What holds of every run, proved together by induction on the batches:
/// the buffer is the tail of the stream and within its bound, the windows
/// are full and numbered from zero, and nothing is emitted before the
/// stream is one window long.
proof fn lemma_sliding_run_facts<T>(window: nat, hop: nat, batches: Seq<Seq<T>>)
    ensures
        ({
            let run = sliding_run(window, hop, batches);
            &&& run.0.buffer == latest(joined(batches), run.0.buffer.len())
            &&& run.0.buffer.len() <= window + hop
            &&& run.0.next_seq == run.1.len()
            &&& run.1.len() == 0 ==> run.0.buffer == joined(batches)
            &&& window > 0 || batches.len() > 0 ==> (run.1.len() >= 1 <==> joined(batches).len()
                >= window)
            &&& forall|i: int|
                0 <= i < run.1.len() ==> (#[trigger] run.1[i]).seq == i && run.1[i].samples.len()
                    == window
        }),
    decreases batches.len(),
{
    if batches.len() > 0 {
        let earlier = batches.drop_last();
        let batch = batches.last();
        lemma_sliding_run_facts(window, hop, earlier);
        let before = sliding_run(window, hop, earlier);
        let stream = joined(earlier);
        let filled = latest(before.0.buffer + batch, window + hop);
        assert(joined(batches) == stream + batch);
        assert(filled =~= latest(stream + batch, filled.len()));
        let step = sliding_step(window, hop, before.0, batch);
        assert(step.0.buffer =~= latest(stream + batch, step.0.buffer.len()));
        let run = sliding_run(window, hop, batches);
        assert(run.0 == step.0);
        if before.1.len() == 0 {
            assert(before.0.buffer + batch == stream + batch);
        }
    }
}

/// Samples stay in arrival order, with no gap: after any run the buffer is
/// the tail of the stream that was fed, and it holds at most one window and
/// one hop.
pub proof fn lemma_sliding_buffer_is_tail<T>(window: nat, hop: nat, batches: Seq<Seq<T>>)
    ensures
        sliding_run(window, hop, batches).0.buffer == latest(
            joined(batches),
            sliding_run(window, hop, batches).0.buffer.len(),
        ),
        sliding_run(window, hop, batches).0.buffer.len() <= window + hop,
{
    lemma_sliding_run_facts(window, hop, batches);
}

/// Every window of a run is exactly one window long, and the windows are
/// numbered 0, 1, 2, ... in the order of emission: no number is skipped and
/// none is used twice.
pub proof fn lemma_sliding_windows_exact<T>(window: nat, hop: nat, batches: Seq<Seq<T>>)
    ensures
        sliding_run(window, hop, batches).0.next_seq == sliding_run(window, hop, batches).1.len(),
        forall|i: int|
            0 <= i < sliding_run(window, hop, batches).1.len() ==> {
                &&& (#[trigger] sliding_run(window, hop, batches).1[i]).seq == i
                &&& sliding_run(window, hop, batches).1[i].samples.len() == window
            },
{
    lemma_sliding_run_facts(window, hop, batches);
}

/// A run has emitted its first window as soon as the stream is one window
/// long, and not before. (With windows of no samples at all this begins
/// with the first batch.)
pub proof fn lemma_sliding_first_window<T>(window: nat, hop: nat, batches: Seq<Seq<T>>)
    requires
        window > 0 || batches.len() > 0,
    ensures
        sliding_run(window, hop, batches).1.len() >= 1 <==> joined(batches).len() >= window,
{
    lemma_sliding_run_facts(window, hop, batches);
}

/// A window emitted on a batch holds the most recent samples of the whole
/// stream up to and including that batch, which are also the most recent
/// samples of the buffer at that time.
pub proof fn lemma_sliding_window_is_latest<T>(window: nat, hop: nat, batches: Seq<Seq<T>>)
    requires
        batches.len() > 0,
    ensures
        ({
            let before = sliding_run(window, hop, batches.drop_last()).0;
            let step = sliding_step(window, hop, before, batches.last());
            step.1 matches Some(e) ==> {
                &&& e.samples == latest(joined(batches), window)
                &&& e.samples == latest(
                    latest(before.buffer + batches.last(), window + hop),
                    window,
                )
                &&& e.samples.len() == window
            }
        }),
{
    let earlier = batches.drop_last();
    let batch = batches.last();
    lemma_sliding_run_facts(window, hop, earlier);
    let before = sliding_run(window, hop, earlier).0;
    let stream = joined(earlier);
    let filled = latest(before.buffer + batch, window + hop);
    assert(joined(batches) == stream + batch);
    assert(filled =~= latest(stream + batch, filled.len()));
    if filled.len() >= window {
        assert(latest(filled, window) =~= latest(stream + batch, window));
    }
}

} // verus!
