//! The handoff between the stages that run on different threads: a queue
//! that the producer fills without ever waiting, and that the consumer
//! empties when it gets to it.

use vstd::prelude::*;

verus! {

/// The sending half of a channel of `crossbeam_channel`.
#[verifier::external_type_specification]
#[verifier::external_body]
#[verifier::reject_recursive_types(T)]
pub struct ExSender<T>(crossbeam_channel::Sender<T>);

/// The receiving half of a channel of `crossbeam_channel`.
#[verifier::external_type_specification]
#[verifier::external_body]
#[verifier::reject_recursive_types(T)]
pub struct ExReceiver<T>(crossbeam_channel::Receiver<T>);

/// Why an item did not go into the queue. The item comes back with the
/// reason.
pub enum PushError<T> {
    /// The queue has a bound and no room for now.
    Full(T),
    /// The consumer is gone: nothing can be delivered any more.
    Closed(T),
}

impl<T> PushError<T> {
    /// The item that was not delivered.
    pub open spec fn item(self) -> T {
        match self {
            PushError::Full(item) => item,
            PushError::Closed(item) => item,
        }
    }

    /// Gives the item back.
    pub fn into_item(self) -> (item: T)
        ensures
            item == self.item(),
    {
        match self {
            PushError::Full(item) => item,
            PushError::Closed(item) => item,
        }
    }
}

/// What one look into the queue found.
pub enum Polled<T> {
    /// The item that had waited longest.
    Item(T),
    /// Nothing waits for now.
    Empty,
    /// Nothing waits and every producer is gone: nothing will come any
    /// more.
    Closed,
}

/// `crossbeam_channel::unbounded` makes a channel that holds any number of
/// messages. Nothing is claimed of the two halves.
#[verifier::external_body]
fn open_channel<T>() -> (halves: (crossbeam_channel::Sender<T>, crossbeam_channel::Receiver<T>)) {
    crossbeam_channel::unbounded()
}

/// `crossbeam_channel::bounded` makes a channel that holds at most `cap`
/// messages, and panics only if `cap` is too large for its index
/// arithmetic, which no 16-bit number is. Nothing is claimed of the two
/// halves.
#[verifier::external_body]
fn open_bounded_channel<T>(capacity: u16) -> (halves: (
    crossbeam_channel::Sender<T>,
    crossbeam_channel::Receiver<T>,
)) {
    crossbeam_channel::bounded(capacity as usize)
}

/// `Sender::try_send` puts the message into the channel at once or returns
/// at once with an error that holds the message: the contract claims only
/// that an undelivered item is the one that was offered. Whether it is
/// delivered depends on the other threads.
#[verifier::external_body]
fn try_send<T>(sender: &crossbeam_channel::Sender<T>, item: T) -> (out: Result<(), PushError<T>>)
    ensures
        out matches Err(e) ==> e.item() == item,
{
    match sender.try_send(item) {
        Ok(()) => Ok(()),
        Err(crossbeam_channel::TrySendError::Full(item)) => Err(PushError::Full(item)),
        Err(crossbeam_channel::TrySendError::Disconnected(item)) => Err(PushError::Closed(item)),
    }
}

/// `Receiver::try_recv` takes a message from the channel at once or returns
/// at once with the reason why there is none. What it finds depends on the
/// other threads, so nothing is claimed of it.
#[verifier::external_body]
fn try_recv<T>(receiver: &crossbeam_channel::Receiver<T>) -> (out: Polled<T>) {
    match receiver.try_recv() {
        Ok(item) => Polled::Item(item),
        Err(crossbeam_channel::TryRecvError::Empty) => Polled::Empty,
        Err(crossbeam_channel::TryRecvError::Disconnected) => Polled::Closed,
    }
}

/// `Sender::clone` makes another sender for the same channel. Nothing is
/// claimed of it.
#[verifier::external_body]
fn sender_clone<T>(sender: &crossbeam_channel::Sender<T>) -> (other: crossbeam_channel::Sender<T>) {
    sender.clone()
}

/// The producer's end of a queue. Pushing never waits. Once the consumer
/// is found to be gone the producer is closed for good.
#[verifier::reject_recursive_types(T)]
pub struct Producer<T> {
    sender: crossbeam_channel::Sender<T>,
    closed: bool,
}

/// The consumer's end of a queue. Polling never waits. Once the queue is
/// found empty with every producer gone the consumer is closed for good.
#[verifier::reject_recursive_types(T)]
pub struct Consumer<T> {
    receiver: crossbeam_channel::Receiver<T>,
    closed: bool,
}

/// Makes an unbounded queue and returns its two ends, both open.
pub fn handoff<T>() -> (ends: (Producer<T>, Consumer<T>))
    ensures
        !ends.0.closed(),
        !ends.1.closed(),
{
    let (sender, receiver) = open_channel();
    (Producer { sender, closed: false }, Consumer { receiver, closed: false })
}

/// Makes a queue that holds at most `capacity` items and returns its two
/// ends, both open. A producer that finds such a queue full keeps its item:
/// what to drop under overload is the caller's choice.
pub fn handoff_bounded<T>(capacity: u16) -> (ends: (Producer<T>, Consumer<T>))
    ensures
        !ends.0.closed(),
        !ends.1.closed(),
{
    let (sender, receiver) = open_bounded_channel(capacity);
    (Producer { sender, closed: false }, Consumer { receiver, closed: false })
}

impl<T> Producer<T> {
    /// Whether the consumer was found to be gone.
    pub closed spec fn closed(&self) -> bool {
        self.closed
    }

    /// Whether the consumer was found to be gone.
    pub fn is_closed(&self) -> (b: bool)
        ensures
            b == self.closed(),
    {
        self.closed
    }

    /// Takes note of how an offer to the queue came out, and hands the
    /// outcome on: a producer that is told that the consumer is gone is
    /// closed from then on.
    pub fn settle(&mut self, outcome: Result<(), PushError<T>>) -> (out: Result<(), PushError<T>>)
        ensures
            out == outcome,
            final(self).closed() <==> old(self).closed() || outcome matches Err(
                PushError::Closed(_),
            ),
    {
        match &outcome {
            Err(PushError::Closed(_)) => {
                self.closed = true;
            },
            _ => {},
        }
        outcome
    }

    /// Offers one item to the queue, without waiting.
    ///
    /// An item that is not delivered comes back with the reason. A closed
    /// producer delivers nothing and leaves the queue alone, and a producer
    /// that finds the consumer gone is closed from then on.
    pub fn push(&mut self, item: T) -> (out: Result<(), PushError<T>>)
        ensures
            out matches Err(e) ==> e.item() == item,
            old(self).closed() ==> out == Err::<(), PushError<T>>(PushError::Closed(item)),
            final(self).closed() <==> out matches Err(PushError::Closed(_)),
    {
        if self.closed {
            return Err(PushError::Closed(item));
        }
        let outcome = try_send(&self.sender, item);
        self.settle(outcome)
    }

    /// Another producer for the same queue, for another thread. It is
    /// closed if this one is.
    pub fn share(&self) -> (other: Self)
        ensures
            other.closed() == self.closed(),
    {
        Producer { sender: sender_clone(&self.sender), closed: self.closed }
    }
}

impl<T> Consumer<T> {
    /// Whether the queue was found empty with every producer gone.
    pub closed spec fn closed(&self) -> bool {
        self.closed
    }

    /// Whether the queue was found empty with every producer gone.
    pub fn is_closed(&self) -> (b: bool)
        ensures
            b == self.closed(),
    {
        self.closed
    }

    /// Takes note of what a look into the queue found, and hands it on: a
    /// consumer that is told that nothing will come any more is closed
    /// from then on.
    pub fn note(&mut self, found: Polled<T>) -> (out: Polled<T>)
        ensures
            out == found,
            final(self).closed() <==> old(self).closed() || found is Closed,
    {
        match &found {
            Polled::Closed => {
                self.closed = true;
            },
            _ => {},
        }
        found
    }

    /// Looks into the queue once, without waiting. A closed consumer finds
    /// nothing and leaves the queue alone.
    pub fn poll(&mut self) -> (out: Polled<T>)
        ensures
            old(self).closed() ==> out is Closed,
            final(self).closed() <==> out is Closed,
    {
        if self.closed {
            return Polled::Closed;
        }
        let found = try_recv(&self.receiver);
        self.note(found)
    }

    /// Takes what waits in the queue, oldest first, without waiting for
    /// more: it looks into the queue until a look finds no item, and after
    /// `limit` items at the latest. The items come back in the order in
    /// which they were found. What a look finds is up to the producers; a
    /// closed consumer finds nothing.
    pub fn drain(&mut self, limit: usize) -> (items: Vec<T>)
        ensures
            items@.len() <= limit,
            old(self).closed() ==> items@.len() == 0 && final(self).closed(),
            exists|looks: Seq<Polled<T>>| #[trigger]
                is_drain(old(self).closed(), limit as nat, looks, items@, final(self).closed()),
    {
        let mut items: Vec<T> = Vec::new();
        let ghost mut looks: Seq<Polled<T>> = Seq::empty();
        while items.len() < limit
            invariant_except_break
                self.closed() == old(self).closed(),
                looks.len() == items@.len(),
            invariant
                items@.len() <= limit,
                old(self).closed() ==> items@.len() == 0,
                forall|i: int| 0 <= i < items@.len() ==> looks[i] == Polled::Item(items@[i]),
            ensures
                is_drain(old(self).closed(), limit as nat, looks, items@, self.closed()),
            decreases limit - items@.len(),
        {
            let found = self.poll();
            proof {
                looks = looks.push(found);
            }
            match found {
                Polled::Item(item) => {
                    items.push(item);
                },
                Polled::Empty => {
                    break ;
                },
                Polled::Closed => {
                    break ;
                },
            }
        }
        items
    }
}

/// What [`Consumer::drain`] makes of the looks into the queue: `items` and
/// `closed` are what a consumer that was closed or not, as `was_closed`
/// says, is left with after the looks `looks`, one after another, under the
/// limit `limit`.
///
/// Every look but the last found an item, and `items` are those items in
/// order. The looks end with the first that finds no item, or without one
/// as soon as `limit` items are there. The consumer is closed afterwards
/// if it was before or if the last look found the queue closed.
pub open spec fn is_drain<T>(
    was_closed: bool,
    limit: nat,
    looks: Seq<Polled<T>>,
    items: Seq<T>,
    closed: bool,
) -> bool {
    &&& items.len() <= limit
    &&& items.len() <= looks.len()
    &&& forall|i: int| 0 <= i < items.len() ==> #[trigger] looks[i] == Polled::Item(items[i])
    &&& was_closed ==> items.len() == 0
    &&& if items.len() == limit {
        looks.len() == limit && closed == was_closed
    } else {
        &&& looks.len() == items.len() + 1
        &&& !(looks.last() is Item)
        &&& closed <==> looks.last() is Closed
        &&& was_closed ==> closed
    }
}

} // verus!
