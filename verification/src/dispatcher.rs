//! Hands windows to a bounded pool of inference workers.
//!
//! The dispatcher decides; it runs nothing itself. The caller tells it of
//! each window that an assembler emits and of each worker that has finished,
//! and is told in return which window to start, if any.

use crate::window::Window;
use std::collections::VecDeque;
use vstd::prelude::*;

verus! {

/// The pool as the dispatcher sees it: how many workers there are, how many
/// of them are at work, and the windows that wait, oldest first.
pub struct DispatchState<T> {
    pub pool_size: nat,
    pub in_flight: nat,
    pub pending: Seq<Window<T>>,
}

/// What the dispatcher is told of.
pub enum DispatchEvent<T> {
    /// An assembler has emitted this window.
    Submit(Window<T>),
    /// A worker has finished, with or without a result.
    Done,
}

/// The size of the pool for a requested size: a pool has at least one
/// worker.
pub open spec fn pool_of(requested: nat) -> nat {
    if requested == 0 {
        1
    } else {
        requested
    }
}

/// A pool of the given size with every worker idle and nothing waiting.
pub open spec fn dispatch_start<T>(pool_size: nat) -> DispatchState<T> {
    DispatchState { pool_size, in_flight: 0, pending: Seq::empty() }
}

/// No more workers are at work than the pool has, and windows wait only
/// while all of them are.
pub open spec fn dispatch_wf<T>(state: DispatchState<T>) -> bool {
    &&& state.pool_size >= 1
    &&& state.in_flight <= state.pool_size
    &&& state.pending.len() > 0 ==> state.in_flight == state.pool_size
}

/// A window is submitted: it starts at once if a worker is idle, and joins
/// the end of the queue otherwise.
pub open spec fn dispatch_submit<T>(state: DispatchState<T>, w: Window<T>) -> (
    DispatchState<T>,
    Option<Window<T>>,
) {
    if state.in_flight < state.pool_size {
        (DispatchState { in_flight: state.in_flight + 1, ..state }, Some(w))
    } else {
        (DispatchState { pending: state.pending.push(w), ..state }, None)
    }
}

/// A worker has finished: it takes the window that has waited longest, or
/// goes idle if none waits. With no worker at work nothing changes.
pub open spec fn dispatch_done<T>(state: DispatchState<T>) -> (
    DispatchState<T>,
    Option<Window<T>>,
) {
    if state.in_flight == 0 {
        (state, None)
    } else if state.pending.len() > 0 {
        (DispatchState { pending: state.pending.drop_first(), ..state }, Some(state.pending[0]))
    } else {
        (DispatchState { in_flight: (state.in_flight - 1) as nat, ..state }, None)
    }
}

/// One event.
pub open spec fn dispatch_step<T>(state: DispatchState<T>, event: DispatchEvent<T>) -> (
    DispatchState<T>,
    Option<Window<T>>,
) {
    match event {
        DispatchEvent::Submit(w) => dispatch_submit(state, w),
        DispatchEvent::Done => dispatch_done(state),
    }
}

/// The state after all of `events` have come to a fresh pool, and the
/// windows started on the way, in order.
pub open spec fn dispatch_run<T>(pool_size: nat, events: Seq<DispatchEvent<T>>) -> (
    DispatchState<T>,
    Seq<Window<T>>,
)
    decreases events.len(),
{
    if events.len() == 0 {
        (dispatch_start(pool_size), Seq::empty())
    } else {
        let before = dispatch_run(pool_size, events.drop_last());
        let step = dispatch_step(before.0, events.last());
        match step.1 {
            Some(w) => (step.0, before.1.push(w)),
            None => (step.0, before.1),
        }
    }
}

/// The windows submitted by `events`, in order.
pub open spec fn submitted<T>(events: Seq<DispatchEvent<T>>) -> Seq<Window<T>>
    decreases events.len(),
{
    if events.len() == 0 {
        Seq::empty()
    } else {
        match events.last() {
            DispatchEvent::Submit(w) => submitted(events.drop_last()).push(w),
            DispatchEvent::Done => submitted(events.drop_last()),
        }
    }
}

/// Keeps the count of busy workers and the queue of waiting windows.
pub struct Dispatcher<T> {
    pool_size: usize,
    in_flight: usize,
    pending: VecDeque<Window<T>>,
}

impl<T> View for Dispatcher<T> {
    type V = DispatchState<T>;

    closed spec fn view(&self) -> DispatchState<T> {
        DispatchState {
            pool_size: self.pool_size as nat,
            in_flight: self.in_flight as nat,
            pending: self.pending@,
        }
    }
}

impl<T> Dispatcher<T> {
    /// The dispatcher's invariant.
    pub open spec fn wf(&self) -> bool {
        dispatch_wf(self@)
    }

    /// A dispatcher for a pool of `pool_size` workers, or of one worker
    /// where `pool_size` is zero.
    pub fn new(pool_size: usize) -> (d: Self)
        ensures
            d.wf(),
            d@ == dispatch_start::<T>(pool_of(pool_size as nat)),
    {
        let size: usize = if pool_size == 0 {
            1
        } else {
            pool_size
        };
        Dispatcher { pool_size: size, in_flight: 0, pending: VecDeque::new() }
    }

    /// The number of workers.
    pub fn pool_size(&self) -> (n: usize)
        ensures
            n == self@.pool_size,
    {
        self.pool_size
    }

    /// The number of workers at work.
    pub fn in_flight(&self) -> (n: usize)
        ensures
            n == self@.in_flight,
    {
        self.in_flight
    }

    /// The number of windows that wait for a worker.
    pub fn queued(&self) -> (n: usize)
        ensures
            n == self@.pending.len(),
    {
        self.pending.len()
    }

    /// Takes a window from an assembler. Returns it if a worker is to start
    /// on it now; keeps it in the queue otherwise.
    pub fn submit(&mut self, w: Window<T>) -> (start: Option<Window<T>>)
        requires
            old(self).wf(),
        ensures
            final(self).wf(),
            final(self)@.in_flight <= final(self)@.pool_size,
            (final(self)@, start) == dispatch_submit(old(self)@, w),
    {
        if self.in_flight < self.pool_size {
            self.in_flight = self.in_flight + 1;
            Some(w)
        } else {
            self.pending.push_back(w);
            None
        }
    }

    /// Takes note that a worker has finished. Returns the window that this
    /// worker is to start on next, if one waits.
    pub fn complete(&mut self) -> (start: Option<Window<T>>)
        requires
            old(self).wf(),
        ensures
            final(self).wf(),
            final(self)@.in_flight <= final(self)@.pool_size,
            (final(self)@, start) == dispatch_done(old(self)@),
    {
        if self.in_flight == 0 {
            None
        } else {
            let next = self.pending.pop_front();
            if next.is_none() {
                self.in_flight = self.in_flight - 1;
            }
            proof {
                if old(self)@.pending.len() > 0 {
                    assert(self.pending@ =~= old(self)@.pending.drop_first());
                } else {
                    assert(self.pending@ =~= old(self)@.pending);
                }
            }
            next
        }
    }
}

/// At every moment no more workers are at work than the pool has: this
/// holds at the start and after every event, whatever the events are.
pub proof fn lemma_in_flight_bounded<T>(pool_size: nat, events: Seq<DispatchEvent<T>>)
    requires
        pool_size >= 1,
    ensures
        dispatch_wf(dispatch_run(pool_size, events).0),
        dispatch_run(pool_size, events).0.pool_size == pool_size,
        dispatch_run(pool_size, events).0.in_flight <= pool_size,
    decreases events.len(),
{
    if events.len() > 0 {
        lemma_in_flight_bounded(pool_size, events.drop_last());
    }
}

/// Windows start in the order in which they were submitted, and none is
/// lost: the windows started so far, followed by those that wait, are the
/// windows submitted so far.
pub proof fn lemma_dispatch_is_fifo<T>(pool_size: nat, events: Seq<DispatchEvent<T>>)
    requires
        pool_size >= 1,
    ensures
        dispatch_run(pool_size, events).1 + dispatch_run(pool_size, events).0.pending
            == submitted(events),
    decreases events.len(),
{
    if events.len() > 0 {
        let earlier = events.drop_last();
        lemma_dispatch_is_fifo(pool_size, earlier);
        lemma_in_flight_bounded(pool_size, earlier);
        let before = dispatch_run(pool_size, earlier);
        let step = dispatch_step(before.0, events.last());
        let run = dispatch_run(pool_size, events);
        match events.last() {
            DispatchEvent::Submit(w) => {
                assert(run.1 + run.0.pending =~= (before.1 + before.0.pending).push(w));
            },
            DispatchEvent::Done => {
                assert(run.1 + run.0.pending =~= before.1 + before.0.pending);
            },
        }
    } else {
        assert(dispatch_run(pool_size, events).1 + dispatch_run(pool_size, events).0.pending
            =~= submitted(events));
    }
}

} // verus!
