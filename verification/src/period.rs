//! What the audio callback does with events at the start of each period.
//!
//! The raw MIDI messages of the period are translated and queued behind what
//! the other producers have queued, and the whole queue is moved to the list
//! that is handed to the plugin. The caller holds the lock on the queue for
//! this one call and lets it go before the plugin processes.

use vstd::prelude::*;
use crate::event::Event;
use crate::midi::{
    add_raw_midi_to_event_buffer, is_complete, translation, MidiTranslationError, RawMidi,
};
use crate::queue::EventQueue;

verus! {

/// The events that the notes among `messages` become, in the order of the
/// messages.
pub open spec fn translated(messages: Seq<RawMidi<'_>>, port: u16) -> Seq<Event>
    decreases messages.len(),
{
    if messages.len() == 0 {
        Seq::empty()
    } else {
        let earlier = translated(messages.drop_last(), port);
        match translation(messages.last().time, messages.last().bytes@, port) {
            Ok(event) => earlier.push(event),
            Err(_) => earlier,
        }
    }
}

/// The refusals of the messages among `messages` that are no notes, in the
/// order of the messages.
pub open spec fn refused(messages: Seq<RawMidi<'_>>, port: u16) -> Seq<MidiTranslationError>
    decreases messages.len(),
{
    if messages.len() == 0 {
        Seq::empty()
    } else {
        let earlier = refused(messages.drop_last(), port);
        match translation(messages.last().time, messages.last().bytes@, port) {
            Ok(_) => earlier,
            Err(error) => earlier.push(error),
        }
    }
}

/// Gathers the input events of one period.
///
/// Each of `messages` is translated; the notes are queued, the refusals are
/// returned for the caller to report, each in the order of the messages.
/// Then `input_events` is emptied and takes all that is queued: first what
/// was pending before the call, then the notes. The queue is left empty.
pub fn begin_period(
    queue: &mut EventQueue,
    messages: &Vec<RawMidi<'_>>,
    port: u16,
    note_id: u32,
    input_events: &mut Vec<Event>,
) -> (refusals: Vec<MidiTranslationError>)
    requires
        forall|i: int| 0 <= i < messages@.len() ==> is_complete((#[trigger] messages@[i]).bytes@),
    ensures
        final(queue)@ == Seq::<Event>::empty(),
        final(input_events)@ == old(queue)@ + translated(messages@, port),
        refusals@ == refused(messages@, port),
{
    let mut refusals: Vec<MidiTranslationError> = Vec::new();
    let mut i: usize = 0;
    assert(messages@.subrange(0, 0) =~= Seq::<RawMidi<'_>>::empty());
    while i < messages.len()
        invariant
            i <= messages.len(),
            forall|k: int|
                0 <= k < messages@.len() ==> is_complete((#[trigger] messages@[k]).bytes@),
            queue@ == old(queue)@ + translated(messages@.subrange(0, i as int), port),
            refusals@ == refused(messages@.subrange(0, i as int), port),
        decreases messages.len() - i,
    {
        let ghost shorter = messages@.subrange(0, i as int);
        let ghost longer = messages@.subrange(0, i + 1);
        assert(longer.drop_last() =~= shorter);
        assert(longer.last() == messages@[i as int]);
        match add_raw_midi_to_event_buffer(queue, messages[i], port, note_id) {
            Ok(()) => {},
            Err(error) => {
                refusals.push(error);
            },
        }
        i = i + 1;
    }
    assert(messages@.subrange(0, i as int) =~= messages@);
    input_events.clear();
    queue.drain_into(input_events);
    refusals
}

} // verus!
