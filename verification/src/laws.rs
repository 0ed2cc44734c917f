//! What holds of the tracker over more than one event.

use vstd::prelude::*;

use crate::key::{KeyEvent, KeyId, KeyKind};
use crate::layout::key_note;
use crate::midi::{midi_message, NoteEvent};
use crate::tracker::{emitted, note_off, note_on, releases_each_once, sounding_after};

verus! {

/// The press of a key.
pub open spec fn press(id: KeyId) -> KeyEvent {
    KeyEvent { id, kind: KeyKind::Press }
}

/// The release of a key.
pub open spec fn release(id: KeyId) -> KeyEvent {
    KeyEvent { id, kind: KeyKind::Release }
}

/// Two keys that play the same note act as one key. When both are pressed,
/// the second press sends nothing, and the first sends a note-on exactly if
/// the note was silent. Releasing either of them (`released`) then sends the
/// note-off and silences the note, so that pressing the second again starts
/// the note afresh.
pub proof fn law_keys_share_their_note(
    sounding: Set<u8>,
    first: KeyId,
    second: KeyId,
    released: KeyId,
    note: u8,
)
    requires
        key_note(first) == Some(note),
        key_note(second) == Some(note),
        released == first || released == second,
    ensures
        ({
            let one_down = sounding_after(sounding, press(first));
            let both_down = sounding_after(one_down, press(second));
            let let_go = sounding_after(both_down, release(released));
            &&& emitted(sounding, press(first)) == if sounding.contains(note) {
                None
            } else {
                Some(note_on(note))
            }
            &&& emitted(one_down, press(second)) is None
            &&& both_down.contains(note)
            &&& emitted(both_down, release(released)) == Some(note_off(note))
            &&& !let_go.contains(note)
            &&& emitted(let_go, press(second)) == Some(note_on(note))
            &&& sounding_after(let_go, press(second)).contains(note)
        }),
{
}

/// Every note of the layout fits in seven bits, so a message carries it
/// uncut.
pub proof fn law_layout_notes_are_sent_uncut(id: KeyId, pressed: bool, channel: u8, velocity: u8)
    requires
        key_note(id) is Some,
    ensures
        midi_message(pressed, channel, key_note(id)->0, velocity)[1] == key_note(id)->0,
{
}

/// The sounding set after a run of key events, taken in order.
pub open spec fn sounding_after_all(sounding: Set<u8>, events: Seq<KeyEvent>) -> Set<u8>
    decreases events.len(),
{
    if events.len() == 0 {
        sounding
    } else {
        sounding_after(sounding_after_all(sounding, events.drop_last()), events.last())
    }
}

/// The note events that a run of key events gives rise to, in order.
pub open spec fn emitted_by_all(sounding: Set<u8>, events: Seq<KeyEvent>) -> Seq<NoteEvent>
    decreases events.len(),
{
    if events.len() == 0 {
        Seq::empty()
    } else {
        let earlier = emitted_by_all(sounding, events.drop_last());
        match emitted(sounding_after_all(sounding, events.drop_last()), events.last()) {
            Some(note_event) => earlier.push(note_event),
            None => earlier,
        }
    }
}

/// Whether a key event is anything but a repeat.
pub open spec fn is_transition(event: KeyEvent) -> bool {
    event.kind != KeyKind::Repeat
}

/// Whether a note-off of `note` lies in `out` strictly between two places.
pub open spec fn stopped_between(out: Seq<NoteEvent>, note: u8, from: int, to: int) -> bool {
    exists|stop: int| from < stop < to && #[trigger] out[stop] == note_off(note)
}

/// Whether the note-on at `start` is answered later in `out` by a note-off
/// of the same note.
pub open spec fn answered(out: Seq<NoteEvent>, start: int) -> bool {
    stopped_between(out, out[start].note, start, out.len() as int)
}

/// Repeats can be struck from a run of key events: the same notes sound
/// after it, and the same note events have gone out.
pub proof fn law_repeats_are_inert(sounding: Set<u8>, events: Seq<KeyEvent>)
    ensures
        sounding_after_all(sounding, events.filter(|event: KeyEvent| is_transition(event)))
            == sounding_after_all(sounding, events),
        emitted_by_all(sounding, events.filter(|event: KeyEvent| is_transition(event)))
            == emitted_by_all(sounding, events),
    decreases events.len(),
{
    reveal(Seq::filter);
    if events.len() > 0 {
        let transitions = events.drop_last().filter(|event: KeyEvent| is_transition(event));
        law_repeats_are_inert(sounding, events.drop_last());
        if is_transition(events.last()) {
            assert(transitions.push(events.last()).drop_last() == transitions);
        }
    }
}

/// A note that sounds after a run of key events sounded before it or was
/// pressed in it.
pub proof fn law_sounding_notes_were_pressed(sounding: Set<u8>, events: Seq<KeyEvent>, note: u8)
    requires
        sounding_after_all(sounding, events).contains(note),
        !sounding.contains(note),
    ensures
        exists|i: int|
            0 <= i < events.len() && #[trigger] events[i].kind == KeyKind::Press && key_note(
                events[i].id,
            ) == Some(note),
    decreases events.len(),
{
    if events.len() > 0 {
        let last = events.len() - 1;
        if !(events[last].kind == KeyKind::Press && key_note(events[last].id) == Some(note)) {
            law_sounding_notes_were_pressed(sounding, events.drop_last(), note);
        }
    }
}

/// After a run of key events, a note-on that no later note-off has
/// answered belongs to a note that still sounds.
pub proof fn law_unanswered_notes_sound(sounding: Set<u8>, events: Seq<KeyEvent>, start: int)
    requires
        0 <= start < emitted_by_all(sounding, events).len(),
        emitted_by_all(sounding, events)[start].pressed,
        !answered(emitted_by_all(sounding, events), start),
    ensures
        sounding_after_all(sounding, events).contains(emitted_by_all(sounding, events)[start].note),
    decreases events.len(),
{
    let out = emitted_by_all(sounding, events);
    if events.len() > 0 {
        let earlier = emitted_by_all(sounding, events.drop_last());
        if start < earlier.len() {
            if answered(earlier, start) {
                let stop = choose|stop: int|
                    start < stop < earlier.len() && #[trigger] earlier[stop] == note_off(
                        earlier[start].note,
                    );
                assert(out[stop] == note_off(out[start].note));
            }
            law_unanswered_notes_sound(sounding, events.drop_last(), start);
            if !sounding_after_all(sounding, events).contains(out[start].note) {
                assert(out[earlier.len() as int] == note_off(out[start].note));
            }
        }
    }
}

/// No note is left hanging: when the flush of a shutdown follows what a run
/// of key events has sent, every note-on in the whole output is followed by
/// a note-off of its note. This asks nothing of the run: releases may be
/// missing from it altogether.
pub proof fn law_every_note_on_is_answered(
    sounding: Set<u8>,
    events: Seq<KeyEvent>,
    flush: Seq<NoteEvent>,
    start: int,
)
    requires
        releases_each_once(flush, sounding_after_all(sounding, events)),
        0 <= start < (emitted_by_all(sounding, events) + flush).len(),
        (emitted_by_all(sounding, events) + flush)[start].pressed,
    ensures
        answered(emitted_by_all(sounding, events) + flush, start),
{
    let sent = emitted_by_all(sounding, events);
    let out = sent + flush;
    if start < sent.len() {
        if answered(sent, start) {
            let stop = choose|stop: int|
                start < stop < sent.len() && #[trigger] sent[stop] == note_off(sent[start].note);
            assert(out[stop] == note_off(out[start].note));
        } else {
            law_unanswered_notes_sound(sounding, events, start);
            let i = choose|i: int|
                0 <= i < flush.len() && #[trigger] flush[i].note == sent[start].note;
            assert(out[sent.len() + i] == note_off(out[start].note));
        }
    }
}

/// No note is started twice: between two note-ons of one note that a run
/// of key events sends, there is a note-off of that note.
pub proof fn law_note_ons_alternate(
    sounding: Set<u8>,
    events: Seq<KeyEvent>,
    first: int,
    second: int,
)
    requires
        0 <= first < second < emitted_by_all(sounding, events).len(),
        emitted_by_all(sounding, events)[first].pressed,
        emitted_by_all(sounding, events)[second] == emitted_by_all(sounding, events)[first],
    ensures
        stopped_between(
            emitted_by_all(sounding, events),
            emitted_by_all(sounding, events)[first].note,
            first,
            second,
        ),
    decreases events.len(),
{
    let out = emitted_by_all(sounding, events);
    if events.len() > 0 {
        let earlier = emitted_by_all(sounding, events.drop_last());
        if second < earlier.len() {
            law_note_ons_alternate(sounding, events.drop_last(), first, second);
            let stop = choose|stop: int|
                first < stop < second && #[trigger] earlier[stop] == note_off(earlier[first].note);
            assert(out[stop] == note_off(out[first].note));
        } else {
            // The second note-on is the last event sent, so its note was
            // silent just before: the first has been answered by then.
            if !answered(earlier, first) {
                law_unanswered_notes_sound(sounding, events.drop_last(), first);
            }
            let stop = choose|stop: int|
                first < stop < earlier.len() && #[trigger] earlier[stop] == note_off(
                    earlier[first].note,
                );
            assert(out[stop] == note_off(out[first].note));
        }
    }
}

} // verus!
