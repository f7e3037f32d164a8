//! Application runtime errors.

use vstd::prelude::*;

verus! {

/// High-level errors surfaced by the application workflows.
#[derive(Debug, Clone)]
pub enum RuntimeError {
    File(String),
    Recording(String),
    AudioConversion(String),
    Transcription(String),
}

impl RuntimeError {
    /// The user-facing description of the failure.
    pub fn message(&self) -> (m: String)
        ensures
            match self {
                RuntimeError::File(d) => m@ == "File Error: "@ + d@
                    + ". Please verify the file path and try again."@,
                RuntimeError::Recording(d) => m@ == "Recording Error: "@ + d@
                    + ". Please verify the recording settings and try again."@,
                RuntimeError::AudioConversion(d) => m@ == "Audio Conversion Error: "@ + d@
                    + ". Please verify the audio settings and try again."@,
                RuntimeError::Transcription(d) => m@ == "Transcription Error: "@ + d@
                    + ". Please check the audio file and model compatibility."@,
            },
    {
        match self {
            RuntimeError::File(d) => {
                let mut m = String::from_str("File Error: ");
                m.append(d.as_str());
                m.append(". Please verify the file path and try again.");
                m
            },
            RuntimeError::Recording(d) => {
                let mut m = String::from_str("Recording Error: ");
                m.append(d.as_str());
                m.append(". Please verify the recording settings and try again.");
                m
            },
            RuntimeError::AudioConversion(d) => {
                let mut m = String::from_str("Audio Conversion Error: ");
                m.append(d.as_str());
                m.append(". Please verify the audio settings and try again.");
                m
            },
            RuntimeError::Transcription(d) => {
                let mut m = String::from_str("Transcription Error: ");
                m.append(d.as_str());
                m.append(". Please check the audio file and model compatibility.");
                m
            },
        }
    }
}

/// Result type for application workflows.
pub type RuntimeResult<T> = Result<T, RuntimeError>;

} // verus!
