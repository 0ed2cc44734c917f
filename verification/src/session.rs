//! One turn of the loop that feeds the tracker: read a key, decide, act.
//!
//! Reading keys and sending messages is the caller's business; what to do
//! with a key once it is read is decided here.

use vstd::prelude::*;

use crate::key::{KeyEvent, KeyId};
use crate::midi::NoteEvent;
use crate::tracker::{emitted, sounding_after, KeyTracker};

verus! {

/// Whether a key, seen with or without the Control modifier, ends the input
/// stream: Escape does, and so does Control together with `c`.
pub open spec fn ends_stream(id: KeyId, ctrl: bool) -> bool {
    id == KeyId::Escape || (ctrl && id == KeyId::Char('c'))
}

/// Tells whether the event stream ends at this key. The kind of the event
/// plays no part: a press, a release and a repeat of Escape all end it.
pub fn is_terminator(id: KeyId, ctrl: bool) -> (stop: bool)
    ensures
        stop == ends_stream(id, ctrl),
{
    match id {
        KeyId::Escape => true,
        KeyId::Char(c) => ctrl && c == 'c',
        KeyId::Other => false,
    }
}

/// What the loop does after a key event.
#[derive(Clone, Copy, Debug, PartialEq, Eq, Structural)]
pub enum Step {
    /// The stream has ended: leave the loop and shut the tracker down.
    Stop,
    /// Nothing goes out; read the next event.
    Idle,
    /// Forward this note event, then read the next event.
    Emit(NoteEvent),
}

/// The step that a key event calls for. A key that ends the stream is not
/// played, even where the layout gives it a note.
pub open spec fn step_for(sounding: Set<u8>, event: KeyEvent, ctrl: bool) -> Step {
    if ends_stream(event.id, ctrl) {
        Step::Stop
    } else {
        match emitted(sounding, event) {
            Some(note_event) => Step::Emit(note_event),
            None => Step::Idle,
        }
    }
}

/// The sounding set after a turn of the loop. A key that ends the stream
/// never reaches the tracker.
pub open spec fn sounding_after_step(sounding: Set<u8>, event: KeyEvent, ctrl: bool) -> Set<u8> {
    if ends_stream(event.id, ctrl) {
        sounding
    } else {
        sounding_after(sounding, event)
    }
}

/// Takes one key event, with the state of the Control modifier, through
/// the tracker and says what the loop does next.
pub fn step(tracker: &mut KeyTracker, event: KeyEvent, ctrl: bool) -> (next: Step)
    ensures
        next == step_for(old(tracker)@, event, ctrl),
        final(tracker)@ == sounding_after_step(old(tracker)@, event, ctrl),
{
    if is_terminator(event.id, ctrl) {
        Step::Stop
    } else {
        match tracker.handle(event) {
            Some(note_event) => Step::Emit(note_event),
            None => Step::Idle,
        }
    }
}

} // verus!
