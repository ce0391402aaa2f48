//! Error types of the player core.

use vstd::prelude::*;

use crate::text::push_str;

verus! {

#[verifier::external_type_specification]
#[verifier::external_body]
pub struct ExIoError(std::io::Error);

/// Top-level error type of the player core.
#[derive(Debug)]
pub enum Error {
    /// Audio subsystem error.
    Audio(AudioError),
    /// File system I/O error.
    Io(std::io::Error),
    /// Generic application error.
    Application(String),
}

/// Audio subsystem errors.
#[derive(Debug, Clone, PartialEq, Eq)]
pub enum AudioError {
    /// Audio device error.
    Device(String),
    /// Unsupported audio format.
    UnsupportedFormat {
        /// The unsupported format identifier.
        format: String,
    },
    /// Audio buffer underrun during playback.
    BufferUnderrun,
    /// Invalid state transition.
    InvalidState {
        /// State transitioning from.
        from: String,
        /// State transitioning to.
        to: String,
    },
    /// Decode error (codec or container level).
    Decode(String),
    /// Streaming / decoding error.
    Streaming(String),
    /// Metadata extraction error.
    Metadata(String),
}

/// The message shown for an audio error.
pub open spec fn audio_error_text(e: AudioError) -> Seq<char> {
    match e {
        AudioError::Device(s) => "device error: "@ + s@,
        AudioError::UnsupportedFormat { format } => "unsupported format: "@ + format@,
        AudioError::BufferUnderrun => "buffer underrun"@,
        AudioError::InvalidState { from, to } => "invalid state transition: "@ + from@ + " -> "@
            + to@,
        AudioError::Decode(s) => "decode error: "@ + s@,
        AudioError::Streaming(s) => "streaming error: "@ + s@,
        AudioError::Metadata(s) => "metadata error: "@ + s@,
    }
}

impl AudioError {
    /// The message shown for the error.
    pub fn message(&self) -> (m: String)
        ensures
            m@ == audio_error_text(*self),
    {
        let mut m = String::new();
        match self {
            AudioError::Device(s) => {
                push_str(&mut m, "device error: ");
                push_str(&mut m, s.as_str());
            },
            AudioError::UnsupportedFormat { format } => {
                push_str(&mut m, "unsupported format: ");
                push_str(&mut m, format.as_str());
            },
            AudioError::BufferUnderrun => {
                push_str(&mut m, "buffer underrun");
            },
            AudioError::InvalidState { from, to } => {
                push_str(&mut m, "invalid state transition: ");
                push_str(&mut m, from.as_str());
                push_str(&mut m, " -> ");
                push_str(&mut m, to.as_str());
            },
            AudioError::Decode(s) => {
                push_str(&mut m, "decode error: ");
                push_str(&mut m, s.as_str());
            },
            AudioError::Streaming(s) => {
                push_str(&mut m, "streaming error: ");
                push_str(&mut m, s.as_str());
            },
            AudioError::Metadata(s) => {
                push_str(&mut m, "metadata error: ");
                push_str(&mut m, s.as_str());
            },
        }
        m
    }
}

impl From<AudioError> for Error {
    fn from(e: AudioError) -> (r: Error) {
        Error::Audio(e)
    }
}

impl vstd::std_specs::convert::FromSpecImpl<AudioError> for Error {
    open spec fn obeys_from_spec() -> bool {
        true
    }

    open spec fn from_spec(e: AudioError) -> Error {
        Error::Audio(e)
    }
}

} // verus!
