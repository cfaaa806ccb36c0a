//! Verified core of a MIDI keyboard scale trainer: scale generation, the
//! practice session state machine, the note matcher and the event slot that
//! hands key presses from the input callback to the session loop.
pub mod matcher;
pub mod naming;
pub mod scale;
pub mod session;
pub mod slot;
