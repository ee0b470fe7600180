//! The bounded first-in first-out queue between capture and transmission.
//!
//! The queue itself never waits: an enqueue on a full queue and a dequeue on
//! an empty one say so and change nothing, and the caller waits and tries
//! again. That is how a slow consumer holds the producers back.

use vstd::prelude::*;
use std::collections::VecDeque;
use crate::message::RelayMessage;
use crate::message::ReportOrigin;

verus! {

/// Capacity of a channel where none is configured.
pub const DEFAULT_CAPACITY: usize = 100;

/// Why a message was not enqueued. The message comes back with the reason,
/// so nothing is lost.
#[derive(Debug, PartialEq, Eq)]
pub enum EnqueueError {
    /// The queue holds as many messages as its capacity allows.
    Full(RelayMessage),
    /// The consuming side has shut down for good.
    Closed(RelayMessage),
}

/// Why no message was dequeued.
#[derive(Clone, Copy, Debug, PartialEq, Eq, Structural)]
pub enum DequeueError {
    /// Nothing is queued, and a producer may still send.
    Empty,
    /// Nothing is queued and every producer has released its handle.
    Closed,
}

/// What a channel is, as a mathematical value.
pub struct ChannelModel {
    /// The queued messages, the oldest first.
    pub pending: Seq<RelayMessage>,
    pub capacity: nat,
    /// Producers that have not released their handle.
    pub producers: nat,
    pub receiver_open: bool,
}

impl ChannelModel {
    pub open spec fn is_full(self) -> bool {
        self.pending.len() >= self.capacity
    }

    /// The channel after an attempt to enqueue `msg`, and the attempt's result.
    pub open spec fn offer(self, msg: RelayMessage) -> (ChannelModel, Result<(), EnqueueError>) {
        if !self.receiver_open {
            (self, Err(EnqueueError::Closed(msg)))
        } else if self.is_full() {
            (self, Err(EnqueueError::Full(msg)))
        } else {
            (ChannelModel { pending: self.pending.push(msg), ..self }, Ok(()))
        }
    }

    /// The channel after an attempt to dequeue, and the attempt's result.
    pub open spec fn take(self) -> (ChannelModel, Result<RelayMessage, DequeueError>) {
        if self.pending.len() > 0 {
            (
                ChannelModel { pending: self.pending.subrange(1, self.pending.len() as int), ..self },
                Ok(self.pending[0]),
            )
        } else if self.producers == 0 {
            (self, Err(DequeueError::Closed))
        } else {
            (self, Err(DequeueError::Empty))
        }
    }

    /// The channel after one producer has released its handle.
    pub open spec fn release(self) -> ChannelModel {
        if self.producers > 0 {
            ChannelModel { producers: (self.producers - 1) as nat, ..self }
        } else {
            self
        }
    }

    /// The channel after the consuming side has shut down.
    pub open spec fn close(self) -> ChannelModel {
        ChannelModel { receiver_open: false, ..self }
    }
}

/// The messages of one origin among `pending`, in queue order.
pub open spec fn from_origin(pending: Seq<RelayMessage>, origin: ReportOrigin) -> Seq<RelayMessage> {
    pending.filter(|m: RelayMessage| m.origin == origin)
}

/// A bounded queue of relay messages with its two ends' liveness.
pub struct RelayChannel {
    queue: VecDeque<RelayMessage>,
    capacity: usize,
    producers: usize,
    receiver_open: bool,
}

impl View for RelayChannel {
    type V = ChannelModel;

    closed spec fn view(&self) -> ChannelModel {
        ChannelModel {
            pending: self.queue@,
            capacity: self.capacity as nat,
            producers: self.producers as nat,
            receiver_open: self.receiver_open,
        }
    }
}

impl RelayChannel {
    /// The capacity is positive and never exceeded.
    #[verifier::type_invariant]
    spec fn bounded(&self) -> bool {
        0 < self.capacity && self.queue@.len() <= self.capacity
    }

    /// An empty channel for `producers` producers; none for a capacity of
    /// zero, which could never pass a message.
    pub fn new(capacity: usize, producers: usize) -> (c: Option<RelayChannel>)
        ensures
            c is Some <==> capacity > 0,
            c matches Some(ch) ==> ch@ == (ChannelModel {
                pending: Seq::<RelayMessage>::empty(),
                capacity: capacity as nat,
                producers: producers as nat,
                receiver_open: true,
            }),
    {
        if capacity == 0 {
            None
        } else {
            Some(RelayChannel { queue: VecDeque::new(), capacity, producers, receiver_open: true })
        }
    }

    /// Number of queued messages.
    pub fn len(&self) -> (n: usize)
        ensures
            n == self@.pending.len(),
            n <= self@.capacity,
    {
        proof {
            use_type_invariant(self);
        }
        self.queue.len()
    }

    /// Largest number of messages the queue holds.
    pub fn capacity(&self) -> (n: usize)
        ensures
            n == self@.capacity,
            n > 0,
    {
        proof {
            use_type_invariant(self);
        }
        self.capacity
    }

    /// Enqueues `msg` at the back if the consumer is alive and there is
    /// room. Otherwise the channel is left as it was and the message comes
    /// back: with `Full` the producer is to wait and try again.
    pub fn try_enqueue(&mut self, msg: RelayMessage) -> (r: Result<(), EnqueueError>)
        ensures
            (final(self)@, r) == old(self)@.offer(msg),
    {
        proof {
            use_type_invariant(&*self);
        }
        if !self.receiver_open {
            Err(EnqueueError::Closed(msg))
        } else if self.queue.len() >= self.capacity {
            Err(EnqueueError::Full(msg))
        } else {
            let mut queue: VecDeque<RelayMessage> = VecDeque::new();
            std::mem::swap(&mut queue, &mut self.queue);
            queue.push_back(msg);
            self.queue = queue;
            Ok(())
        }
    }

    /// Dequeues the oldest message. With `Empty` the consumer is to wait and
    /// try again; `Closed` is the regular end of the stream.
    pub fn try_dequeue(&mut self) -> (r: Result<RelayMessage, DequeueError>)
        ensures
            (final(self)@, r) == old(self)@.take(),
    {
        proof {
            use_type_invariant(&*self);
        }
        let mut queue: VecDeque<RelayMessage> = VecDeque::new();
        std::mem::swap(&mut queue, &mut self.queue);
        let oldest = queue.pop_front();
        self.queue = queue;
        match oldest {
            Some(msg) => Ok(msg),
            None => {
                if self.producers == 0 {
                    Err(DequeueError::Closed)
                } else {
                    Err(DequeueError::Empty)
                }
            },
        }
    }

    /// Records that one producer has released its handle.
    pub fn release_producer(&mut self)
        ensures
            final(self)@ == old(self)@.release(),
    {
        proof {
            use_type_invariant(&*self);
        }
        if self.producers > 0 {
            self.producers = self.producers - 1;
        }
    }

    /// Records that the consuming side has shut down for good.
    pub fn close_receiver(&mut self)
        ensures
            final(self)@ == old(self)@.close(),
    {
        proof {
            use_type_invariant(&*self);
        }
        self.receiver_open = false;
    }
}

/// Messages leave in the order in which they were accepted: two messages
/// offered one after the other to a channel with room are queued behind
/// what was pending, the first before the second, and an empty channel
/// hands them out in that order.
pub proof fn lemma_first_in_first_out(c: ChannelModel, a: RelayMessage, b: RelayMessage)
    requires
        c.receiver_open,
        c.pending.len() + 2 <= c.capacity,
    ensures
        c.offer(a).1 is Ok,
        c.offer(a).0.offer(b).1 is Ok,
        c.offer(a).0.offer(b).0.pending == c.pending.push(a).push(b),
        c.pending.len() == 0 ==> {
            let filled = c.offer(a).0.offer(b).0;
            &&& filled.take().1 == Ok::<RelayMessage, DequeueError>(a)
            &&& filled.take().0.take().1 == Ok::<RelayMessage, DequeueError>(b)
        },
{
}

/// Each source's own order is kept: an accepted message goes behind the
/// pending messages of its origin and leaves those of the other origin as
/// they are, and a dequeue takes the oldest message of one origin and leaves
/// the other origin's messages as they are.
pub proof fn lemma_source_order_kept(c: ChannelModel, msg: RelayMessage, origin: ReportOrigin)
    requires
        c.receiver_open,
        !c.is_full(),
    ensures
        from_origin(c.offer(msg).0.pending, origin) == if msg.origin == origin {
            from_origin(c.pending, origin).push(msg)
        } else {
            from_origin(c.pending, origin)
        },
        c.pending.len() > 0 ==> from_origin(c.take().0.pending, origin) == if c.pending[0].origin
            == origin {
            from_origin(c.pending, origin).drop_first()
        } else {
            from_origin(c.pending, origin)
        },
{
    reveal(Seq::filter);
    let pred = |m: RelayMessage| m.origin == origin;
    assert(c.pending.push(msg).drop_last() =~= c.pending);
    if c.pending.len() > 0 {
        let head = seq![c.pending[0]];
        let tail = c.pending.subrange(1, c.pending.len() as int);
        assert(c.pending =~= head + tail);
        Seq::filter_distributes_over_add(head, tail, pred);
        assert(head.drop_last().filter(pred) =~= Seq::<RelayMessage>::empty());
    }
}

/// A full channel holds its producer back without losing anything: the
/// offer is refused with the message handed back and the channel unchanged,
/// and once the consumer has taken one message the same offer is accepted.
pub proof fn lemma_backpressure(c: ChannelModel, msg: RelayMessage)
    requires
        c.receiver_open,
        0 < c.capacity,
        c.pending.len() == c.capacity,
    ensures
        c.offer(msg) == (c, Err::<(), EnqueueError>(EnqueueError::Full(msg))),
        c.take().1 == Ok::<RelayMessage, DequeueError>(c.pending[0]),
        c.take().0.offer(msg).1 is Ok,
        c.take().0.offer(msg).0.pending == c.pending.subrange(1, c.pending.len() as int).push(msg),
{
}

/// Once every producer has released its handle and the queue is drained,
/// each further dequeue reports the end of the stream; until it is drained
/// the queued messages still come out.
pub proof fn lemma_closed_after_drain(c: ChannelModel)
    requires
        c.producers == 0,
    ensures
        c.pending.len() == 0 ==> c.take() == (c, Err::<RelayMessage, DequeueError>(DequeueError::Closed)),
        c.pending.len() > 0 ==> c.take().1 is Ok,
{
}

} // verus!
