//! Voice identities and the voice profile that shapes every clip.

use vstd::prelude::*;
use crate::text::{lower_of, lowercase, str_eq};

verus! {

/// One of the eight recorded voices: four female, four male.
#[derive(Clone, Copy, Debug, PartialEq, Eq, Structural)]
pub enum VoiceType {
    F1,
    F2,
    F3,
    F4,
    M1,
    M2,
    M3,
    M4,
}

/// Name of the sprite sheet recorded for a voice.
pub open spec fn voice_file(v: VoiceType) -> Seq<char> {
    match v {
        VoiceType::F1 => "f1.ogg"@,
        VoiceType::F2 => "f2.ogg"@,
        VoiceType::F3 => "f3.ogg"@,
        VoiceType::F4 => "f4.ogg"@,
        VoiceType::M1 => "m1.ogg"@,
        VoiceType::M2 => "m2.ogg"@,
        VoiceType::M3 => "m3.ogg"@,
        VoiceType::M4 => "m4.ogg"@,
    }
}

/// The voice a lowercase name stands for (`f1` .. `f4`, `m1` .. `m4`).
pub open spec fn voice_named(name: Seq<char>) -> Option<VoiceType> {
    if name == "f1"@ {
        Some(VoiceType::F1)
    } else if name == "f2"@ {
        Some(VoiceType::F2)
    } else if name == "f3"@ {
        Some(VoiceType::F3)
    } else if name == "f4"@ {
        Some(VoiceType::F4)
    } else if name == "m1"@ {
        Some(VoiceType::M1)
    } else if name == "m2"@ {
        Some(VoiceType::M2)
    } else if name == "m3"@ {
        Some(VoiceType::M3)
    } else if name == "m4"@ {
        Some(VoiceType::M4)
    } else {
        None
    }
}

impl VoiceType {
    /// File name of this voice's sprite sheet.
    pub fn filename(&self) -> (r: &'static str)
        ensures
            r@ == voice_file(*self),
    {
        match self {
            VoiceType::F1 => "f1.ogg",
            VoiceType::F2 => "f2.ogg",
            VoiceType::F3 => "f3.ogg",
            VoiceType::F4 => "f4.ogg",
            VoiceType::M1 => "m1.ogg",
            VoiceType::M2 => "m2.ogg",
            VoiceType::M3 => "m3.ogg",
            VoiceType::M4 => "m4.ogg",
        }
    }
}

/// The voice named by an already lowercase name.
pub fn voice_from_lowercase(name: &str) -> (r: Option<VoiceType>)
    ensures
        r == voice_named(name@),
{
    if str_eq(name, "f1") {
        Some(VoiceType::F1)
    } else if str_eq(name, "f2") {
        Some(VoiceType::F2)
    } else if str_eq(name, "f3") {
        Some(VoiceType::F3)
    } else if str_eq(name, "f4") {
        Some(VoiceType::F4)
    } else if str_eq(name, "m1") {
        Some(VoiceType::M1)
    } else if str_eq(name, "m2") {
        Some(VoiceType::M2)
    } else if str_eq(name, "m3") {
        Some(VoiceType::M3)
    } else if str_eq(name, "m4") {
        Some(VoiceType::M4)
    } else {
        None
    }
}

/// Reads a voice name in any case; an unknown name gives the message
/// `Invalid voice type: <name>`.
pub fn parse_voice_type(s: &str) -> (r: Result<VoiceType, String>)
    ensures
        voice_named(lower_of(s@)) matches Some(v) ==> r == Ok::<VoiceType, String>(v),
        voice_named(lower_of(s@)) is None ==> (r matches Err(m) && m@ == "Invalid voice type: "@ + s@),
{
    let lower = lowercase(s);
    match voice_from_lowercase(lower.as_str()) {
        Some(v) => Ok(v),
        None => {
            let mut message = String::from_str("Invalid voice type: ");
            message.append(s);
            Err(message)
        },
    }
}

/// How the engine shapes each clip. Pitch amounts are in thousandths of a
/// semitone and the volume and intonation in thousandths, so `volume: 650`
/// plays at 0.65 of full amplitude and `intonation: -1000` glides fully down.
#[derive(Clone, Copy, Debug, PartialEq, Eq, Structural)]
pub struct VoiceProfile {
    pub voice_type: VoiceType,
    /// Fixed pitch shift.
    pub pitch_shift: i32,
    /// Range of the random pitch jitter on each clip.
    pub pitch_variation: i32,
    /// Amplitude multiplier.
    pub volume: i32,
    /// Pitch glide over an utterance: below zero falling, above zero rising.
    pub intonation: i32,
}

/// First female voice, no shift, 0.2 semitone jitter, volume 0.65, level
/// intonation.
pub open spec fn default_profile() -> VoiceProfile {
    VoiceProfile {
        voice_type: VoiceType::F1,
        pitch_shift: 0,
        pitch_variation: 200,
        volume: 650,
        intonation: 0,
    }
}

impl Default for VoiceProfile {
    fn default() -> (r: VoiceProfile)
        ensures
            r == default_profile(),
    {
        VoiceProfile {
            voice_type: VoiceType::F1,
            pitch_shift: 0,
            pitch_variation: 200,
            volume: 650,
            intonation: 0,
        }
    }
}

} // verus!
