use accordion::display::{pitch_name, status_line};
use accordion::midi::NoteEvent;

#[test]
fn pitch_classes_from_c_upwards() {
    let names = ["C", "C#", "D", "D#", "E", "F", "F#", "G", "G#", "A", "A#", "B"];
    for note in 0u8..=255 {
        assert_eq!(pitch_name(note), names[usize::from(note % 12)]);
    }
}

#[test]
fn pitch_names_of_some_keys() {
    // `q` plays 48 and `t` plays 60: both are a C.
    assert_eq!(pitch_name(48), "C");
    assert_eq!(pitch_name(60), "C");
    assert_eq!(pitch_name(47), "B");
    assert_eq!(pitch_name(50), "D");
    assert_eq!(pitch_name(84), "C");
    assert_eq!(pitch_name(81), "A");
}

#[test]
fn status_line_of_a_note_on() {
    let event = NoteEvent { pressed: true, note: 48, velocity: 127 };
    assert_eq!(status_line(&event), "Playing C\r");
}

#[test]
fn status_line_of_a_note_off() {
    let event = NoteEvent { pressed: false, note: 58, velocity: 127 };
    assert_eq!(status_line(&event), "Releasing A#\r");
}
