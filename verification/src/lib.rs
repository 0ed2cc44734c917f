//! A computer keyboard played as a chromatic button accordion.
//!
//! Key presses and releases are resolved through a fixed key layout to note
//! numbers; a tracker remembers which notes sound, suppresses repeated
//! presses, and turns every meaningful transition into a note event that can
//! be encoded as a MIDI channel-voice message.

pub mod display;
pub mod key;
pub mod laws;
pub mod layout;
pub mod midi;
pub mod session;
pub mod tracker;
