use clack_audio_host::event::{Binary64, Event, Velocity};
use clack_audio_host::queue::EventQueue;

fn note_on(key: u16) -> Event {
    Event::NoteOn { time: 0, port: 0, channel: 0, key, velocity: Velocity { numerator: 127 } }
}

fn note_off(key: u16) -> Event {
    Event::NoteOff { time: 0, port: 0, channel: 0, key, velocity: Velocity { numerator: 127 } }
}

#[test]
fn a_new_queue_is_empty() {
    let mut queue = EventQueue::new();
    assert!(queue.is_empty());
    assert_eq!(queue.len(), 0);
    let mut target = Vec::new();
    queue.drain_into(&mut target);
    assert!(target.is_empty());
}

#[test]
fn events_come_out_in_the_order_of_the_pushes() {
    let mut queue = EventQueue::new();
    queue.push(note_on(60));
    queue.push(note_off(60));
    queue.push(Event::ParamValue { time: 0, param_id: 3, value: Binary64 { bits: 7 } });
    assert_eq!(queue.len(), 3);
    assert!(!queue.is_empty());
    let mut target = Vec::new();
    queue.drain_into(&mut target);
    assert_eq!(
        target,
        vec![
            note_on(60),
            note_off(60),
            Event::ParamValue { time: 0, param_id: 3, value: Binary64 { bits: 7 } },
        ]
    );
    assert!(queue.is_empty());
}

#[test]
fn a_drain_appends_to_what_the_target_holds() {
    let mut queue = EventQueue::new();
    queue.push(note_on(2));
    let mut target = vec![note_on(1)];
    queue.drain_into(&mut target);
    assert_eq!(target, vec![note_on(1), note_on(2)]);
}

#[test]
fn each_event_comes_out_of_exactly_one_drain() {
    let mut queue = EventQueue::new();
    let mut batches: Vec<Vec<Event>> = Vec::new();
    let mut pushed: Vec<Event> = Vec::new();
    let mut key = 0u16;
    for round in 0..6usize {
        for _ in 0..round {
            queue.push(note_on(key));
            pushed.push(note_on(key));
            key += 1;
        }
        let mut batch = Vec::new();
        queue.drain_into(&mut batch);
        assert_eq!(batch.len(), round);
        batches.push(batch);
        assert!(queue.is_empty());
    }
    let joined: Vec<Event> = batches.concat();
    assert_eq!(joined, pushed);
}

#[test]
fn equal_events_are_neither_merged_nor_lost() {
    let mut queue = EventQueue::new();
    queue.push(note_on(60));
    queue.push(note_on(60));
    let mut target = Vec::new();
    queue.drain_into(&mut target);
    assert_eq!(target, vec![note_on(60), note_on(60)]);
}

#[test]
fn one_pushed_note_reaches_the_next_period_and_no_other() {
    let mut queue = EventQueue::new();
    assert!(queue.is_empty());
    let note =
        Event::NoteOn { time: 0, port: 0, channel: 0, key: 60, velocity: Velocity::from_midi(127) };
    queue.push(note);
    let mut period = Vec::new();
    queue.drain_into(&mut period);
    assert_eq!(period, vec![note]);
    assert!(queue.is_empty());
    let mut following = Vec::new();
    queue.drain_into(&mut following);
    assert!(following.is_empty());
}
