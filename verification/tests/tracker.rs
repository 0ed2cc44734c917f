use accordion::key::{KeyEvent, KeyId, KeyKind};
use accordion::midi::NoteEvent;
use accordion::tracker::KeyTracker;

fn press(c: char) -> KeyEvent {
    KeyEvent { id: KeyId::Char(c), kind: KeyKind::Press }
}

fn release(c: char) -> KeyEvent {
    KeyEvent { id: KeyId::Char(c), kind: KeyKind::Release }
}

fn repeat(c: char) -> KeyEvent {
    KeyEvent { id: KeyId::Char(c), kind: KeyKind::Repeat }
}

fn on(note: u8) -> NoteEvent {
    NoteEvent { pressed: true, note, velocity: 127 }
}

fn off(note: u8) -> NoteEvent {
    NoteEvent { pressed: false, note, velocity: 127 }
}

fn sorted_notes(flush: &[NoteEvent]) -> Vec<u8> {
    let mut notes: Vec<u8> = flush.iter().map(|event| event.note).collect();
    notes.sort();
    notes
}

#[test]
fn stuck_key_scenario() {
    let mut tracker = KeyTracker::new();
    assert_eq!(tracker.handle(press('q')), Some(on(48)));
    assert_eq!(tracker.handle(press('q')), None);
    assert_eq!(tracker.handle(release('q')), Some(off(48)));
    assert_eq!(tracker.shutdown(), Vec::<NoteEvent>::new());
}

#[test]
fn new_tracker_has_nothing_to_flush() {
    let mut tracker = KeyTracker::new();
    assert!(tracker.shutdown().is_empty());
}

#[test]
fn repeat_sends_nothing_and_changes_nothing() {
    let mut tracker = KeyTracker::new();
    // A repeat of a key that is not down does not start its note.
    assert_eq!(tracker.handle(repeat('w')), None);
    assert_eq!(tracker.handle(press('w')), Some(on(51)));
    // A repeat of a key that is down neither restarts nor stops its note.
    assert_eq!(tracker.handle(repeat('w')), None);
    assert_eq!(tracker.handle(repeat('w')), None);
    assert_eq!(tracker.handle(press('w')), None);
    assert_eq!(tracker.shutdown(), vec![off(51)]);
}

#[test]
fn press_of_a_silent_note_starts_it() {
    let mut tracker = KeyTracker::new();
    assert_eq!(tracker.handle(press('t')), Some(on(60)));
    assert_eq!(tracker.handle(press('g')), Some(on(61)));
    assert_eq!(sorted_notes(&tracker.shutdown()), vec![60, 61]);
}

#[test]
fn second_press_is_silent() {
    let mut tracker = KeyTracker::new();
    assert_eq!(tracker.handle(press('h')), Some(on(64)));
    assert_eq!(tracker.handle(press('h')), None);
    assert_eq!(tracker.handle(press('h')), None);
    assert_eq!(tracker.shutdown(), vec![off(64)]);
}

#[test]
fn release_always_sends_note_off() {
    let mut tracker = KeyTracker::new();
    // Never pressed: the note-off goes out all the same.
    assert_eq!(tracker.handle(release('k')), Some(off(70)));
    assert_eq!(tracker.handle(press('k')), Some(on(70)));
    assert_eq!(tracker.handle(release('k')), Some(off(70)));
    // Released twice.
    assert_eq!(tracker.handle(release('k')), Some(off(70)));
    assert!(tracker.shutdown().is_empty());
}

#[test]
fn release_silences_the_note() {
    let mut tracker = KeyTracker::new();
    assert_eq!(tracker.handle(press('p')), Some(on(75)));
    assert_eq!(tracker.handle(release('p')), Some(off(75)));
    // The note is silent again, so a press starts it afresh.
    assert_eq!(tracker.handle(press('p')), Some(on(75)));
}

#[test]
fn shutdown_releases_each_sounding_note_once() {
    let mut tracker = KeyTracker::new();
    assert_eq!(tracker.handle(press('q')), Some(on(48)));
    assert_eq!(tracker.handle(press('a')), Some(on(49)));
    assert_eq!(tracker.handle(press('z')), Some(on(50)));
    assert_eq!(tracker.handle(press('2')), None);
    assert_eq!(tracker.handle(press('\\')), Some(on(84)));
    assert_eq!(tracker.handle(release('a')), Some(off(49)));
    let flush = tracker.shutdown();
    assert_eq!(flush.len(), 3);
    assert!(flush.iter().all(|event| !event.pressed && event.velocity == 127));
    assert_eq!(sorted_notes(&flush), vec![48, 50, 84]);
    // Nothing sounds after the flush.
    assert!(tracker.shutdown().is_empty());
    assert_eq!(tracker.handle(press('q')), Some(on(48)));
}

#[test]
fn two_keys_of_one_note_act_as_one() {
    let mut tracker = KeyTracker::new();
    assert_eq!(tracker.handle(press('2')), Some(on(50)));
    assert_eq!(tracker.handle(press('z')), None);
    // Releasing either key stops the note, though the other is still down.
    assert_eq!(tracker.handle(release('2')), Some(off(50)));
    assert_eq!(tracker.handle(press('z')), Some(on(50)));
    assert_eq!(tracker.handle(press('2')), None);
    assert_eq!(tracker.handle(release('z')), Some(off(50)));
    assert_eq!(tracker.handle(press('z')), Some(on(50)));
    assert_eq!(tracker.shutdown(), vec![off(50)]);
}

#[test]
fn keys_outside_the_layout_are_ignored() {
    let mut tracker = KeyTracker::new();
    for kind in [KeyKind::Press, KeyKind::Repeat, KeyKind::Release] {
        assert_eq!(tracker.handle(KeyEvent { id: KeyId::Escape, kind }), None);
        assert_eq!(tracker.handle(KeyEvent { id: KeyId::Other, kind }), None);
        assert_eq!(tracker.handle(KeyEvent { id: KeyId::Char('Q'), kind }), None);
        assert_eq!(tracker.handle(KeyEvent { id: KeyId::Char(' '), kind }), None);
        assert_eq!(tracker.handle(KeyEvent { id: KeyId::Char('`'), kind }), None);
    }
    assert!(tracker.shutdown().is_empty());
}

#[test]
fn every_note_event_has_the_fixed_velocity() {
    let mut tracker = KeyTracker::new();
    assert_eq!(tracker.handle(press('m')).map(|event| event.velocity), Some(127));
    assert_eq!(tracker.handle(release('m')).map(|event| event.velocity), Some(127));
    assert_eq!(tracker.handle(press(';')).map(|event| event.velocity), Some(127));
    assert_eq!(tracker.shutdown()[0].velocity, 127);
}
