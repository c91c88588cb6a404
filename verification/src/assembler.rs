//! The window assembler under either of its two policies.

use crate::sliding::{SlidingAssembler, SlidingView};
use crate::threshold::{ThresholdAssembler, ThresholdView};
use crate::window::{emitted, stamped, Emission, Window};
use vstd::prelude::*;

verus! {

/// A window assembler, with the policy that was chosen for the session.
pub enum WindowAssembler<T> {
    /// Fixed-length windows at a stride of one hop.
    Sliding(SlidingAssembler<T>),
    /// Whatever has gathered, once it is long enough and came in enough
    /// calls.
    Threshold(ThresholdAssembler<T>),
}

/// What a [`WindowAssembler`] holds, as mathematical values.
pub enum AssemblerView<T> {
    Sliding(SlidingView<T>),
    Threshold(ThresholdView<T>),
}

impl<T> AssemblerView<T> {
    /// The assembler and the emission after one more batch.
    pub open spec fn pushed(self, batch: Seq<T>) -> (AssemblerView<T>, Option<Emission<T>>) {
        match self {
            AssemblerView::Sliding(v) => (AssemblerView::Sliding(v.pushed(batch).0), v.pushed(batch).1),
            AssemblerView::Threshold(v) => (
                AssemblerView::Threshold(v.pushed(batch).0),
                v.pushed(batch).1,
            ),
        }
    }

    /// The number that the next window will carry.
    pub open spec fn next_seq(self) -> nat {
        match self {
            AssemblerView::Sliding(v) => v.state.next_seq,
            AssemblerView::Threshold(v) => v.state.next_seq,
        }
    }
}

impl<T> View for WindowAssembler<T> {
    type V = AssemblerView<T>;

    open spec fn view(&self) -> AssemblerView<T> {
        match self {
            WindowAssembler::Sliding(a) => AssemblerView::Sliding(a@),
            WindowAssembler::Threshold(a) => AssemblerView::Threshold(a@),
        }
    }
}

impl<T: Copy> WindowAssembler<T> {
    /// Whether the assembler can take one more batch.
    pub open spec fn has_room(&self) -> bool {
        match self {
            WindowAssembler::Sliding(a) => a.has_room(),
            WindowAssembler::Threshold(a) => a.has_room(),
        }
    }

    /// Whether the assembler can take one more batch.
    pub fn can_push(&self) -> (b: bool)
        ensures
            b == self.has_room(),
    {
        match self {
            WindowAssembler::Sliding(a) => a.can_push(),
            WindowAssembler::Threshold(a) => a.can_push(),
        }
    }

    /// The number that the next window will carry.
    pub fn next_seq(&self) -> (n: u64)
        ensures
            n == self@.next_seq(),
    {
        match self {
            WindowAssembler::Sliding(a) => a.next_seq(),
            WindowAssembler::Threshold(a) => a.next_seq(),
        }
    }

    /// Takes one batch of normalized samples and emits a window if the
    /// policy says that one is due.
    pub fn push(&mut self, batch: &[T], now: u64) -> (out: Option<Window<T>>)
        requires
            old(self).has_room(),
        ensures
            (final(self)@, emitted(out)) == old(self)@.pushed(batch@),
            stamped(out, now),
    {
        match self {
            WindowAssembler::Sliding(a) => a.push(batch, now),
            WindowAssembler::Threshold(a) => a.push(batch, now),
        }
    }
}

} // verus!
