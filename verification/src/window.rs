//! The unit of work handed to the inference engine.

use vstd::prelude::*;

verus! {

/// A run of normalized samples, numbered in the order of emission and stamped
/// with the time at which it was cut. A window is never changed after it has
/// been made.
pub struct Window<T> {
    samples: Vec<T>,
    seq: u64,
    created_at: u64,
}

/// What a [`Window`] holds, as mathematical values.
pub struct WindowView<T> {
    pub samples: Seq<T>,
    pub seq: u64,
    pub created_at: u64,
}

/// What one emission of an assembler carries in the terms of its policy: the
/// samples and the window's number.
pub struct Emission<T> {
    pub samples: Seq<T>,
    pub seq: nat,
}

/// What an emitted window says in the terms of the policy.
pub open spec fn emission_of<T>(w: WindowView<T>) -> Emission<T> {
    Emission { samples: w.samples, seq: w.seq as nat }
}

/// What the outcome of one call says in the terms of the policy: the
/// emission, if a window came out.
pub open spec fn emitted<T>(out: Option<Window<T>>) -> Option<Emission<T>> {
    match out {
        Some(w) => Some(emission_of(w@)),
        None => None,
    }
}

/// Whether the window that came out, if any, carries the timestamp `now`.
pub open spec fn stamped<T>(out: Option<Window<T>>, now: u64) -> bool {
    out matches Some(w) ==> w@.created_at == now
}

impl<T> View for Window<T> {
    type V = WindowView<T>;

    closed spec fn view(&self) -> WindowView<T> {
        WindowView { samples: self.samples@, seq: self.seq, created_at: self.created_at }
    }
}

impl<T> Window<T> {
    /// Makes the window with the given samples, sequence number and timestamp.
    pub fn new(samples: Vec<T>, seq: u64, created_at: u64) -> (w: Self)
        ensures
            w@ == (WindowView { samples: samples@, seq, created_at }),
    {
        Window { samples, seq, created_at }
    }

    /// The samples, oldest first.
    pub fn samples(&self) -> (s: &Vec<T>)
        ensures
            s@ == self@.samples,
    {
        &self.samples
    }

    /// The number of samples.
    pub fn len(&self) -> (n: usize)
        ensures
            n == self@.samples.len(),
    {
        self.samples.len()
    }

    /// The position of this window among all windows of its assembler.
    pub fn seq(&self) -> (n: u64)
        ensures
            n == self@.seq,
    {
        self.seq
    }

    /// The time at which the window was cut, as the caller's clock gave it.
    pub fn created_at(&self) -> (t: u64)
        ensures
            t == self@.created_at,
    {
        self.created_at
    }

    /// Gives up the window for its samples.
    pub fn into_samples(self) -> (s: Vec<T>)
        ensures
            s@ == self@.samples,
    {
        self.samples
    }
}

} // verus!
