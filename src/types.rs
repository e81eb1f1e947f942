//! The engine's documents: speakers with their styles, and audio queries.
//!
//! The engine's single-precision fields are carried as their IEEE-754 bit
//! patterns (`f32::to_bits`); the library moves them but never computes on
//! them as numbers.
use vstd::prelude::*;

verus! {

/// One voice identity offered by the engine.
#[derive(Debug, Clone, PartialEq, Eq)]
pub struct Speaker {
    pub name: String,
    pub speaker_uuid: String,
    pub styles: Vec<SpeakerStyle>,
}

/// A variant of a speaker; `id` is what synthesis is keyed on.
#[derive(Debug, Clone, PartialEq, Eq)]
pub struct SpeakerStyle {
    pub name: String,
    pub id: u32,
}

/// The prosody document the engine derives from a text.
#[derive(Debug, Clone, PartialEq, Eq)]
pub struct AudioQuery {
    pub accent_phrases: Vec<AccentPhrase>,
    pub speed_scale: u32,
    pub pitch_scale: u32,
    pub intonation_scale: u32,
    pub volume_scale: u32,
    pub pre_phoneme_length: u32,
    pub post_phoneme_length: u32,
    pub output_sampling_rate: u32,
    pub output_stereo: bool,
    pub pause_length: Option<u32>,
    pub pause_length_scale: u32,
    pub kana: String,
}

/// A run of morae sharing one accent.
#[derive(Debug, Clone, PartialEq, Eq)]
pub struct AccentPhrase {
    pub moras: Vec<Mora>,
    pub accent: u32,
    pub pause_mora: Option<Mora>,
    pub is_interrogative: bool,
}

/// One mora with its phonemes, lengths and pitch.
#[derive(Debug, Clone, PartialEq, Eq)]
pub struct Mora {
    pub text: String,
    pub consonant: Option<String>,
    pub consonant_length: Option<u32>,
    pub vowel: String,
    pub vowel_length: u32,
    pub pitch: u32,
}

/// The parameters of an audio-query request.
#[derive(Debug, PartialEq, Eq)]
pub struct AudioQueryRequest {
    pub text: String,
    pub speaker: u32,
}

/// The parameters and body of a synthesis request.
#[derive(Debug, PartialEq, Eq)]
pub struct SynthesisRequest {
    pub audio_query: AudioQuery,
    pub speaker: u32,
}

} // verus!
