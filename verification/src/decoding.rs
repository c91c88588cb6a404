//! The control of a greedy decoding run: which tokens the model is shown at
//! each step, and when the run ends. The model itself is the caller's.

use vstd::prelude::*;

verus! {

/// The number of steps after which a run ends even if the model has not
/// produced an end token.
pub const MAX_DECODE_STEPS: usize = 128;

/// What is fixed for a run: the token that every sequence starts with, and
/// the two tokens that end it.
pub struct DecodeTokens {
    pub start: u32,
    pub eos: u32,
    pub forced_eos: u32,
}

impl DecodeTokens {
    /// Whether `token` ends a run.
    pub open spec fn stops(self, token: u32) -> bool {
        token == self.eos || token == self.forced_eos
    }
}

/// The state of a run.
pub struct GreedyDecoder {
    tokens: DecodeTokens,
    token_ids: Vec<u32>,
    steps: usize,
    stopped: bool,
}

/// What a [`GreedyDecoder`] holds, as mathematical values.
pub struct DecoderView {
    pub tokens: DecodeTokens,
    /// The start token and the tokens taken so far.
    pub token_ids: Seq<u32>,
    /// The number of steps made.
    pub steps: nat,
    /// Whether the model has produced an end token.
    pub stopped: bool,
}

impl DecoderView {
    /// Whether the run is over: the model has produced an end token, or the
    /// steps are used up.
    pub open spec fn finished(self) -> bool {
        self.stopped || self.steps >= MAX_DECODE_STEPS
    }

    /// The position in the sequence of the first token that the model is
    /// shown next: the whole sequence at the first step, and only its last
    /// token afterwards.
    pub open spec fn context_start(self) -> nat {
        if self.steps >= 1 {
            (self.token_ids.len() - 1) as nat
        } else {
            0
        }
    }

    /// The tokens that the model is shown next.
    pub open spec fn context(self) -> Seq<u32> {
        self.token_ids.subrange(self.context_start() as int, self.token_ids.len() as int)
    }

    /// The tokens taken so far, without the start token.
    pub open spec fn output(self) -> Seq<u32> {
        self.token_ids.subrange(1, self.token_ids.len() as int)
    }

    /// The run after the model has sampled `token`.
    pub open spec fn stepped(self, token: u32) -> DecoderView {
        if self.tokens.stops(token) {
            DecoderView { steps: self.steps + 1, stopped: true, ..self }
        } else {
            DecoderView { steps: self.steps + 1, token_ids: self.token_ids.push(token), ..self }
        }
    }

    /// The sequence starts with the start token, holds one more token for
    /// each step while the run goes on, never more than one per step, and
    /// no end token.
    pub open spec fn wf(self) -> bool {
        &&& self.token_ids.len() >= 1
        &&& self.token_ids[0] == self.tokens.start
        &&& self.steps <= MAX_DECODE_STEPS
        &&& self.token_ids.len() <= self.steps + 1
        &&& !self.stopped ==> self.token_ids.len() == self.steps + 1
        &&& forall|i: int| 1 <= i < self.token_ids.len() ==> !self.tokens.stops(#[trigger] self.token_ids[i])
    }
}

impl View for GreedyDecoder {
    type V = DecoderView;

    closed spec fn view(&self) -> DecoderView {
        DecoderView {
            tokens: self.tokens,
            token_ids: self.token_ids@,
            steps: self.steps as nat,
            stopped: self.stopped,
        }
    }
}

impl GreedyDecoder {
    /// A run that has made no step: the sequence holds the start token.
    pub fn new(start: u32, eos: u32, forced_eos: u32) -> (d: Self)
        ensures
            d@.wf(),
            d@ == (DecoderView {
                tokens: DecodeTokens { start, eos, forced_eos },
                token_ids: seq![start],
                steps: 0,
                stopped: false,
            }),
    {
        let mut token_ids: Vec<u32> = Vec::new();
        token_ids.push(start);
        let d = GreedyDecoder {
            tokens: DecodeTokens { start, eos, forced_eos },
            token_ids,
            steps: 0,
            stopped: false,
        };
        assert(d.token_ids@ =~= seq![start]);
        d
    }

    /// Whether the run is over.
    pub fn is_finished(&self) -> (b: bool)
        ensures
            b == self@.finished(),
    {
        self.stopped || self.steps >= MAX_DECODE_STEPS
    }

    /// The position in the sequence of the first token that the model is
    /// shown next.
    pub fn context_start(&self) -> (at: usize)
        requires
            self@.wf(),
        ensures
            at == self@.context_start(),
            at < self@.token_ids.len(),
    {
        if self.steps >= 1 {
            self.token_ids.len() - 1
        } else {
            0
        }
    }

    /// The tokens that the model is shown next.
    pub fn context(&self) -> (shown: Vec<u32>)
        requires
            self@.wf(),
        ensures
            shown@ == self@.context(),
            shown@.len() >= 1,
    {
        let at: usize = self.context_start();
        let mut shown: Vec<u32> = Vec::new();
        let mut i: usize = at;
        while i < self.token_ids.len()
            invariant
                at <= i <= self.token_ids@.len(),
                shown@ == self.token_ids@.subrange(at as int, i as int),
            decreases self.token_ids@.len() - i,
        {
            shown.push(self.token_ids[i]);
            i += 1;
            assert(shown@ =~= self.token_ids@.subrange(at as int, i as int));
        }
        shown
    }

    /// Takes the token that the model has sampled: an end token ends the
    /// run, any other token joins the sequence.
    pub fn accept(&mut self, token: u32)
        requires
            old(self)@.wf(),
            !old(self)@.finished(),
        ensures
            final(self)@.wf(),
            final(self)@ == old(self)@.stepped(token),
    {
        self.steps = self.steps + 1;
        if token == self.tokens.eos || token == self.tokens.forced_eos {
            self.stopped = true;
        } else {
            self.token_ids.push(token);
        }
    }

    /// The tokens taken so far, without the start token: what is handed to
    /// the tokenizer once the run is over.
    pub fn output(&self) -> (ids: Vec<u32>)
        requires
            self@.wf(),
        ensures
            ids@ == self@.output(),
            ids@.len() <= MAX_DECODE_STEPS,
            forall|i: int| 0 <= i < ids@.len() ==> !self@.tokens.stops(#[trigger] ids@[i]),
    {
        let mut ids: Vec<u32> = Vec::new();
        let mut i: usize = 1;
        while i < self.token_ids.len()
            invariant
                1 <= i <= self.token_ids@.len(),
                ids@ == self.token_ids@.subrange(1, i as int),
            decreases self.token_ids@.len() - i,
        {
            ids.push(self.token_ids[i]);
            i += 1;
            assert(ids@ =~= self.token_ids@.subrange(1, i as int));
        }
        ids
    }
}

/// The run in which the model samples the tokens of `sampled` one after
/// another, for as long as the run goes on.
pub open spec fn decode_run(tokens: DecodeTokens, sampled: Seq<u32>) -> DecoderView
    decreases sampled.len(),
{
    if sampled.len() == 0 {
        DecoderView { tokens, token_ids: seq![tokens.start], steps: 0, stopped: false }
    } else {
        let before = decode_run(tokens, sampled.drop_last());
        if before.finished() {
            before
        } else {
            before.stepped(sampled.last())
        }
    }
}

/// A run keeps its invariant, and its output is what the model sampled
/// before the first end token, cut off after the greatest number of steps:
/// nothing is added, dropped or moved.
pub proof fn lemma_decode_run_output(tokens: DecodeTokens, sampled: Seq<u32>)
    ensures
        decode_run(tokens, sampled).wf(),
        decode_run(tokens, sampled).tokens == tokens,
        ({
            let run = decode_run(tokens, sampled);
            let n = run.output().len();
            &&& run.output() == sampled.take(n as int)
            &&& forall|i: int| 0 <= i < n ==> !tokens.stops(#[trigger] sampled[i])
            &&& run.stopped ==> n < sampled.len() && tokens.stops(sampled[n as int])
            &&& !run.stopped ==> n == run.steps && (n == sampled.len() || (n == MAX_DECODE_STEPS
                && n < sampled.len()))
        }),
    decreases sampled.len(),
{
    let run = decode_run(tokens, sampled);
    if sampled.len() == 0 {
        assert(run.output() =~= sampled.take(0));
    } else {
        let earlier = sampled.drop_last();
        lemma_decode_run_output(tokens, earlier);
        let before = decode_run(tokens, earlier);
        let n = before.output().len() as int;
        assert(earlier.take(n) =~= sampled.take(n));
        if !before.finished() {
            if tokens.stops(sampled.last()) {
                assert(run.output() =~= before.output());
            } else {
                assert(run.output() =~= before.output().push(sampled.last()));
                assert(run.output() =~= sampled);
                assert(sampled.take(sampled.len() as int) =~= sampled);
            }
        }
        assert forall|i: int| 0 <= i < run.output().len() implies !tokens.stops(
            #[trigger] sampled[i],
        ) by {
            assert(sampled[i] == run.output()[i]);
            assert(run.output()[i] == run.token_ids[i + 1]);
        }
    }
}

} // verus!
