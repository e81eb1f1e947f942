//! The error type of the library.
use vstd::prelude::*;
use vstd::string::StringExecFns;

verus! {

/// Every way a synthesis run can fail. Failures of the transport, of JSON
/// decoding, of file output and of audio handling carry their description.
#[derive(Debug, Clone, PartialEq, Eq)]
pub enum VoxmixError {
    Http(String),
    Json(String),
    Io(String),
    Audio(String),
    SpeakerNotFound(String),
    VoicevoxApi(String),
    InvalidParameter(String),
}

/// The text shown for an error: a fixed lead, then what the error carries.
pub open spec fn error_text(e: VoxmixError) -> Seq<char> {
    match e {
        VoxmixError::Http(m) => "HTTP request failed: "@ + m@,
        VoxmixError::Json(m) => "JSON parsing failed: "@ + m@,
        VoxmixError::Io(m) => "IO error: "@ + m@,
        VoxmixError::Audio(m) => "Audio processing error: "@ + m@,
        VoxmixError::SpeakerNotFound(m) => "Speaker '"@ + m@ + "' not found"@,
        VoxmixError::VoicevoxApi(m) => "VOICEVOX API error: "@ + m@,
        VoxmixError::InvalidParameter(m) => "Invalid parameter: "@ + m@,
    }
}

impl VoxmixError {
    /// The human-readable description of the error.
    pub fn message(&self) -> (r: String)
        ensures
            r@ == error_text(*self),
    {
        match self {
            VoxmixError::Http(m) => String::from_str("HTTP request failed: ").concat(m.as_str()),
            VoxmixError::Json(m) => String::from_str("JSON parsing failed: ").concat(m.as_str()),
            VoxmixError::Io(m) => String::from_str("IO error: ").concat(m.as_str()),
            VoxmixError::Audio(m) => String::from_str("Audio processing error: ").concat(
                m.as_str(),
            ),
            VoxmixError::SpeakerNotFound(m) => String::from_str("Speaker '").concat(
                m.as_str(),
            ).concat("' not found"),
            VoxmixError::VoicevoxApi(m) => String::from_str("VOICEVOX API error: ").concat(
                m.as_str(),
            ),
            VoxmixError::InvalidParameter(m) => String::from_str("Invalid parameter: ").concat(
                m.as_str(),
            ),
        }
    }
}

} // verus!
