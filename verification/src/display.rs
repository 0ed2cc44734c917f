//! A line of text for each note event, for whoever watches the terminal.

use vstd::prelude::*;

use crate::midi::NoteEvent;

verus! {

/// The names of the twelve pitch classes, from C upwards.
pub open spec fn pitch_class_names() -> Seq<Seq<char>> {
    seq![
        "C"@,
        "C#"@,
        "D"@,
        "D#"@,
        "E"@,
        "F"@,
        "F#"@,
        "G"@,
        "G#"@,
        "A"@,
        "A#"@,
        "B"@,
    ]
}

/// The name of a note's pitch class: the note number counts semitones, and
/// every multiple of twelve is a C.
pub open spec fn pitch_class_name(note: u8) -> Seq<char> {
    pitch_class_names()[note as int % 12]
}

/// The word for what an event does to its note.
pub open spec fn verb(pressed: bool) -> Seq<char> {
    if pressed {
        "Playing"@
    } else {
        "Releasing"@
    }
}

/// The status line of a note event: the verb, a space, the pitch class and
/// a carriage return, as a terminal in raw mode needs it.
pub open spec fn status_text(event: NoteEvent) -> Seq<char> {
    verb(event.pressed) + " "@ + pitch_class_name(event.note) + "\r"@
}

/// Names the pitch class of a note.
pub fn pitch_name(note: u8) -> (name: &'static str)
    ensures
        name@ == pitch_class_name(note),
{
    let note_names: [&'static str; 12] = [
        "C",
        "C#",
        "D",
        "D#",
        "E",
        "F",
        "F#",
        "G",
        "G#",
        "A",
        "A#",
        "B",
    ];
    note_names[(note % 12) as usize]
}

/// Writes the status line of a note event.
pub fn status_line(event: &NoteEvent) -> (line: String)
    ensures
        line@ == status_text(*event),
{
    let mut line = String::from_str(if event.pressed { "Playing" } else { "Releasing" });
    line.append(" ");
    line.append(pitch_name(event.note));
    line.append("\r");
    line
}

} // verus!
