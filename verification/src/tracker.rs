//! The key state tracker: which notes sound, and what each key event does
//! to them.
//!
//! The tracker is a reducer over the stream of key events. Its whole state
//! is the set of notes that sound; each event changes that set and sends at
//! most one note event. Three rules shape it:
//!
//! - a repeat never starts or stops a note, however a terminal may flood
//!   the stream with repeats while a key is held;
//! - a press of a note that sounds already is not sent on, so that two keys
//!   of one note do not start it twice;
//! - a release is always sent on, whether the note sounded or not: a
//!   note-off too many does no harm, a note that never stops does.
//!
//! Some terminals never report a release. What then still sounds is
//! released by the flush at shutdown.

use std::collections::HashSet;
use vstd::prelude::*;
use vstd::std_specs::iter::IteratorSpec;

use crate::key::{KeyEvent, KeyKind};
use crate::layout::{key_note, Layout};
use crate::midi::{NoteEvent, VELOCITY};

verus! {

broadcast use vstd::std_specs::hash::group_hash_axioms;

/// The event that starts a note.
pub open spec fn note_on(note: u8) -> NoteEvent {
    NoteEvent { pressed: true, note, velocity: VELOCITY }
}

/// The event that stops a note.
pub open spec fn note_off(note: u8) -> NoteEvent {
    NoteEvent { pressed: false, note, velocity: VELOCITY }
}

/// The sounding set after a key event: a press adds the note of its key, a
/// release takes it away, and a repeat or a key outside the layout leaves
/// the set as it is.
pub open spec fn sounding_after(sounding: Set<u8>, event: KeyEvent) -> Set<u8> {
    match (key_note(event.id), event.kind) {
        (Some(note), KeyKind::Press) => sounding.insert(note),
        (Some(note), KeyKind::Release) => sounding.remove(note),
        _ => sounding,
    }
}

/// The note event, if any, that a key event gives rise to: a note-on for
/// the press of a silent note, a note-off for every release.
pub open spec fn emitted(sounding: Set<u8>, event: KeyEvent) -> Option<NoteEvent> {
    match (key_note(event.id), event.kind) {
        (Some(note), KeyKind::Press) => if sounding.contains(note) {
            None
        } else {
            Some(note_on(note))
        },
        (Some(note), KeyKind::Release) => Some(note_off(note)),
        _ => None,
    }
}

/// Whether `flush` releases every note of `sounding` once, and nothing else.
pub open spec fn releases_each_once(flush: Seq<NoteEvent>, sounding: Set<u8>) -> bool {
    &&& flush.len() == sounding.len()
    &&& forall|i: int| 0 <= i < flush.len() ==> #[trigger] flush[i] == note_off(flush[i].note)
    &&& forall|i: int| 0 <= i < flush.len() ==> sounding.contains(#[trigger] flush[i].note)
    &&& forall|i: int, j: int|
        0 <= i < j < flush.len() ==> #[trigger] flush[i].note != #[trigger] flush[j].note
    &&& forall|note: u8|
        sounding.contains(note) ==> exists|i: int|
            0 <= i < flush.len() && #[trigger] flush[i].note == note
}

/// Tracks the notes that sound. Its view is the sounding set.
pub struct KeyTracker {
    layout: Layout,
    sounding: HashSet<u8>,
}

impl View for KeyTracker {
    type V = Set<u8>;

    /// The sounding set.
    closed spec fn view(&self) -> Set<u8> {
        self.sounding@
    }
}

impl KeyTracker {
    /// A tracker with nothing sounding.
    pub fn new() -> (tracker: KeyTracker)
        ensures
            tracker@ == Set::<u8>::empty(),
    {
        KeyTracker { layout: Layout::new(), sounding: HashSet::new() }
    }

    /// Takes one key event and says which note event, if any, goes out.
    pub fn handle(&mut self, event: KeyEvent) -> (out: Option<NoteEvent>)
        ensures
            final(self)@ == sounding_after(old(self)@, event),
            out == emitted(old(self)@, event),
            // A key outside the layout is ignored, and so is a repeat of any key.
            key_note(event.id) is None || event.kind == KeyKind::Repeat ==> out is None
                && final(self)@ == old(self)@,
            // A press starts its note if the note was silent.
            key_note(event.id) matches Some(note) ==> (event.kind == KeyKind::Press
                && !old(self)@.contains(note) ==> out == Some(note_on(note))
                && final(self)@.contains(note)),
            // A press of a note that sounds already changes nothing and sends nothing.
            key_note(event.id) matches Some(note) ==> (event.kind == KeyKind::Press
                && old(self)@.contains(note) ==> out is None && final(self)@ == old(self)@),
            // A release always stops its note, whether it sounded or not.
            key_note(event.id) matches Some(note) ==> (event.kind == KeyKind::Release ==> out
                == Some(note_off(note)) && !final(self)@.contains(note)),
    {
        match self.layout.note_for(event.id) {
            None => None,
            Some(note) => match event.kind {
                KeyKind::Press => {
                    if self.sounding.insert(note) {
                        Some(NoteEvent { pressed: true, note, velocity: VELOCITY })
                    } else {
                        None
                    }
                },
                KeyKind::Release => {
                    self.sounding.remove(&note);
                    Some(NoteEvent { pressed: false, note, velocity: VELOCITY })
                },
                KeyKind::Repeat => None,
            },
        }
    }

    /// Releases every note that still sounds, in no particular order, and
    /// leaves nothing sounding.
    pub fn shutdown(&mut self) -> (flush: Vec<NoteEvent>)
        ensures
            final(self)@ == Set::<u8>::empty(),
            releases_each_once(flush@, old(self)@),
    {
        let mut flush: Vec<NoteEvent> = Vec::new();
        let ghost sounding = self.sounding@;
        let ghost walk = self.sounding.iter().remaining().unref();
        for note in it: self.sounding.iter()
            invariant
                it.seq().unref() == walk,
                flush@.len() == it.index(),
                forall|i: int| 0 <= i < flush@.len() ==> flush@[i] == note_off(walk[i]),
        {
            flush.push(NoteEvent { pressed: false, note: *note, velocity: VELOCITY });
        }
        proof {
            // Every note of the set is met on the walk, so it is in the flush.
            assert forall|note: u8| sounding.contains(note) implies exists|i: int|
                0 <= i < flush@.len() && #[trigger] flush@[i].note == note by {
                let i = choose|i: int| 0 <= i < walk.len() && walk[i] == note;
                assert(flush@[i].note == note);
            }
        }
        self.sounding.clear();
        flush
    }
}

} // verus!
