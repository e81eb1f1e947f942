//! A text-to-speech client library for a local VOICEVOX engine.
//!
//! The library holds the client's decisions: how a speaker name or id is
//! resolved to a style id, how an audio query is adjusted, how parameters
//! are validated, and how engine replies are judged. Network and file work
//! is left to the caller, who hands the library plain values.
use vstd::prelude::*;

pub mod decimal;
pub mod error;
pub mod types;
pub mod resolve;
pub mod client;
pub mod say;
