//! The queue between the producers and the audio callback.
//!
//! Every operation is short: `push` appends one event, `drain_into` moves all
//! of them out. A caller that shares the queue between threads wraps it in a
//! lock and holds the lock for one such call only, never while the plugin
//! processes.

use vstd::prelude::*;
use crate::event::Event;

verus! {

/// The pending events, oldest first.
pub struct EventQueue {
    events: Vec<Event>,
}

impl View for EventQueue {
    type V = Seq<Event>;

    closed spec fn view(&self) -> Seq<Event> {
        self.events@
    }
}

impl EventQueue {
    /// An empty queue.
    pub fn new() -> (queue: EventQueue)
        ensures
            queue@ == Seq::<Event>::empty(),
    {
        EventQueue { events: Vec::new() }
    }

    /// The number of pending events.
    pub fn len(&self) -> (n: usize)
        ensures
            n == self@.len(),
    {
        self.events.len()
    }

    /// Whether no event is pending.
    pub fn is_empty(&self) -> (empty: bool)
        ensures
            empty == (self@.len() == 0),
    {
        self.events.len() == 0
    }

    /// Appends `event` behind all pending events.
    pub fn push(&mut self, event: Event)
        ensures
            final(self)@ == old(self)@.push(event),
    {
        self.events.push(event);
    }

    /// Moves every pending event to the end of `target`, oldest first, and
    /// leaves the queue empty.
    pub fn drain_into(&mut self, target: &mut Vec<Event>)
        ensures
            final(self)@ == Seq::<Event>::empty(),
            final(target)@ == old(target)@ + old(self)@,
    {
        target.append(&mut self.events);
    }
}

/// One step in the life of a queue.
pub enum QueueOp {
    /// A producer appends an event.
    Push(Event),
    /// The consumer moves all pending events out.
    Drain,
}

/// The events that the pushes among `ops` appended, in the order of the
/// pushes.
pub open spec fn pushed(ops: Seq<QueueOp>) -> Seq<Event>
    decreases ops.len(),
{
    if ops.len() == 0 {
        Seq::empty()
    } else {
        match ops.last() {
            QueueOp::Push(event) => pushed(ops.drop_last()).push(event),
            QueueOp::Drain => pushed(ops.drop_last()),
        }
    }
}

/// What a queue that was empty holds after `ops`: `push` and `drain_into`
/// applied in turn.
pub open spec fn pending(ops: Seq<QueueOp>) -> Seq<Event>
    decreases ops.len(),
{
    if ops.len() == 0 {
        Seq::empty()
    } else {
        match ops.last() {
            QueueOp::Push(event) => pending(ops.drop_last()).push(event),
            QueueOp::Drain => Seq::empty(),
        }
    }
}

/// What each drain among `ops` moved out of a queue that was empty at
/// first, one batch for each drain, in the order of the drains.
pub open spec fn drained(ops: Seq<QueueOp>) -> Seq<Seq<Event>>
    decreases ops.len(),
{
    if ops.len() == 0 {
        Seq::empty()
    } else {
        match ops.last() {
            QueueOp::Push(event) => drained(ops.drop_last()),
            QueueOp::Drain => drained(ops.drop_last()).push(pending(ops.drop_last())),
        }
    }
}

/// The batches laid end to end.
pub open spec fn joined(batches: Seq<Seq<Event>>) -> Seq<Event>
    decreases batches.len(),
{
    if batches.len() == 0 {
        Seq::empty()
    } else {
        joined(batches.drop_last()) + batches.last()
    }
}

/// Whatever the order of pushes and drains, the batches that the drains
/// moved out, laid end to end and followed by what is still pending, are the
/// pushed events in the order of the pushes. So every pushed event stands at
/// one place in one batch or is still pending: none is lost, none comes
/// twice, and none overtakes another.
pub proof fn every_event_is_delivered_once_in_order(ops: Seq<QueueOp>)
    ensures
        joined(drained(ops)) + pending(ops) == pushed(ops),
    decreases ops.len(),
{
    if ops.len() > 0 {
        let before = ops.drop_last();
        every_event_is_delivered_once_in_order(before);
        match ops.last() {
            QueueOp::Push(event) => {
                assert(joined(drained(before)) + pending(before).push(event) =~= (joined(
                    drained(before),
                ) + pending(before)).push(event));
            },
            QueueOp::Drain => {
                let batches = drained(before).push(pending(before));
                assert(batches.drop_last() =~= drained(before));
                assert(batches.last() == pending(before));
                assert(joined(batches) + Seq::<Event>::empty() =~= joined(batches));
            },
        }
    } else {
        assert(joined(drained(ops)) + pending(ops) =~= pushed(ops));
    }
}

/// A drain leaves nothing behind: once the last step is a drain, the batches
/// laid end to end hold every pushed event, and an event pushed before a
/// drain is in the batch of that drain or of an earlier one.
pub proof fn a_drain_delivers_all_that_was_pushed(ops: Seq<QueueOp>)
    requires
        ops.len() > 0,
        ops.last() == QueueOp::Drain,
    ensures
        pending(ops) == Seq::<Event>::empty(),
        joined(drained(ops)) == pushed(ops),
        drained(ops).last() == pending(ops.drop_last()),
{
    every_event_is_delivered_once_in_order(ops);
    assert(joined(drained(ops)) + Seq::<Event>::empty() =~= joined(drained(ops)));
}

} // verus!
