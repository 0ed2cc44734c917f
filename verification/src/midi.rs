//! Note events and their encoding as MIDI channel-voice messages.

use vstd::prelude::*;

verus! {

/// The velocity that every note event carries.
pub const VELOCITY: u8 = 127;

/// The MIDI channel that every message is sent on.
pub const CHANNEL: u8 = 0;

/// A note that starts or stops sounding.
#[derive(Clone, Copy, Debug, PartialEq, Eq, Structural)]
pub struct NoteEvent {
    pub pressed: bool,
    pub note: u8,
    pub velocity: u8,
}

/// The status byte of a note-on (`0x90`) or note-off (`0x80`) message on the
/// given channel; only the low four bits of the channel count.
pub open spec fn status_byte(pressed: bool, channel: u8) -> int {
    (if pressed { 0x90int } else { 0x80int }) + channel % 16
}

/// The three bytes of a note-on or note-off message: the status byte, then
/// note and velocity reduced to seven bits.
pub open spec fn midi_message(pressed: bool, channel: u8, note: u8, velocity: u8) -> Seq<u8> {
    seq![status_byte(pressed, channel) as u8, (note % 128) as u8, (velocity % 128) as u8]
}

/// Encodes a note-on or note-off message.
pub fn midi_packet(is_pressed: bool, channel: u8, note: u8, velocity: u8) -> (bytes: [u8; 3])
    ensures
        bytes@ == midi_message(is_pressed, channel, note, velocity),
{
    let status: u8 = if is_pressed { 0x90 } else { 0x80 };
    assert((0x90u8 | (channel & 0x0f)) == 0x90 + channel % 16) by (bit_vector);
    assert((0x80u8 | (channel & 0x0f)) == 0x80 + channel % 16) by (bit_vector);
    assert(note & 0x7f == note % 128) by (bit_vector);
    assert(velocity & 0x7f == velocity % 128) by (bit_vector);
    [status | (channel & 0x0f), note & 0x7f, velocity & 0x7f]
}

impl NoteEvent {
    /// The message that carries this event to a MIDI sink.
    pub fn message(&self) -> (bytes: [u8; 3])
        ensures
            bytes@ == midi_message(self.pressed, CHANNEL, self.note, self.velocity),
    {
        midi_packet(self.pressed, CHANNEL, self.note, self.velocity)
    }
}

} // verus!
