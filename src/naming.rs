//! Human-readable names of MIDI keys.
use vstd::prelude::*;
use crate::scale::{OCTAVE, REFERENCE_KEY};

verus! {

/// The pitch class and octave of a key, both counted from the reference
/// key (A0).
#[derive(Clone, Copy, Debug, PartialEq, Eq, Structural)]
pub struct PitchLabel {
    /// Semitones above the nearest A at or below the key, in `0..12`.
    pub pitch_class: u8,
    /// Whole octaves above the reference key.
    pub octave: u8,
}

/// The name of a pitch class, counting semitones up from A.
pub open spec fn pitch_name(pitch_class: u8) -> Seq<char> {
    if pitch_class == 0 {
        "A"@
    } else if pitch_class == 1 {
        "A#"@
    } else if pitch_class == 2 {
        "B"@
    } else if pitch_class == 3 {
        "C"@
    } else if pitch_class == 4 {
        "C#"@
    } else if pitch_class == 5 {
        "D"@
    } else if pitch_class == 6 {
        "D#"@
    } else if pitch_class == 7 {
        "E"@
    } else if pitch_class == 8 {
        "F"@
    } else if pitch_class == 9 {
        "F#"@
    } else if pitch_class == 10 {
        "G"@
    } else {
        "G#"@
    }
}

impl PitchLabel {
    /// The name of the label's pitch class, such as `"C#"`.
    pub fn name(&self) -> (r: &'static str)
        ensures
            r@ == pitch_name(self.pitch_class),
    {
        if self.pitch_class == 0 {
            "A"
        } else if self.pitch_class == 1 {
            "A#"
        } else if self.pitch_class == 2 {
            "B"
        } else if self.pitch_class == 3 {
            "C"
        } else if self.pitch_class == 4 {
            "C#"
        } else if self.pitch_class == 5 {
            "D"
        } else if self.pitch_class == 6 {
            "D#"
        } else if self.pitch_class == 7 {
            "E"
        } else if self.pitch_class == 8 {
            "F"
        } else if self.pitch_class == 9 {
            "F#"
        } else if self.pitch_class == 10 {
            "G"
        } else {
            "G#"
        }
    }
}

/// The label of a key at or above the reference key: its distance from the
/// reference key modulo an octave, and in whole octaves.
pub fn get_note(midikey: u8) -> (r: PitchLabel)
    requires
        midikey >= REFERENCE_KEY,
    ensures
        r.pitch_class == (midikey - REFERENCE_KEY) % (OCTAVE as int),
        r.octave == (midikey - REFERENCE_KEY) / (OCTAVE as int),
        r.pitch_class < OCTAVE,
{
    let distance = midikey - REFERENCE_KEY;
    PitchLabel { pitch_class: distance % OCTAVE, octave: distance / OCTAVE }
}

} // verus!
