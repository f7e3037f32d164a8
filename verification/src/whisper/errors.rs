//! Transcription errors.

use vstd::prelude::*;

verus! {

/// Errors that can occur during audio transcription.
#[derive(Debug, Clone, Copy, PartialEq, Eq, Structural)]
pub enum WhisperError {
    FileNotFound,
    InvalidURL,
    RequestFailed,
    ResponseError,
    DecodeError,
    ModelNotFound,
    StateCreationFailed,
    AudioConversionFailed,
    UnsupportedAudioFormat,
    TranscriptionFailed,
    VadModelNotFound,
}

impl WhisperError {
    /// The user-facing description of the failure.
    pub fn message(&self) -> (m: &'static str)
        ensures
            match self {
                WhisperError::FileNotFound => m@
                    == "Audio file not found. Please ensure the file exists and is readable."@,
                WhisperError::InvalidURL => m@
                    == "Invalid Whisper service URL. Please check your configuration file."@,
                WhisperError::RequestFailed => m@
                    == "Failed to connect to Whisper service. Please verify the service is running and accessible."@,
                WhisperError::ResponseError => m@
                    == "Whisper service returned an error. Please check the service logs and try again."@,
                WhisperError::DecodeError => m@
                    == "Failed to decode Whisper response. The service may be experiencing issues or the audio format may be unsupported."@,
                WhisperError::ModelNotFound => m@
                    == "Failed to load Whisper model. Please ensure the model file is valid and accessible."@,
                WhisperError::StateCreationFailed => m@
                    == "Failed to create Whisper state. Please ensure the model is properly initialized."@,
                WhisperError::AudioConversionFailed => m@
                    == "Failed to convert audio data. Please ensure the audio format is supported."@,
                WhisperError::UnsupportedAudioFormat => m@
                    == "Audio format not supported. Expected 16kHz mono PCM."@,
                WhisperError::TranscriptionFailed => m@
                    == "Transcription failed. Please check the audio file and model compatibility."@,
                WhisperError::VadModelNotFound => m@
                    == "VAD model not found. Please ensure the VAD model file is valid and accessible."@,
            },
    {
        match self {
            WhisperError::FileNotFound => "Audio file not found. Please ensure the file exists and is readable.",
            WhisperError::InvalidURL => "Invalid Whisper service URL. Please check your configuration file.",
            WhisperError::RequestFailed => "Failed to connect to Whisper service. Please verify the service is running and accessible.",
            WhisperError::ResponseError => "Whisper service returned an error. Please check the service logs and try again.",
            WhisperError::DecodeError => "Failed to decode Whisper response. The service may be experiencing issues or the audio format may be unsupported.",
            WhisperError::ModelNotFound => "Failed to load Whisper model. Please ensure the model file is valid and accessible.",
            WhisperError::StateCreationFailed => "Failed to create Whisper state. Please ensure the model is properly initialized.",
            WhisperError::AudioConversionFailed => "Failed to convert audio data. Please ensure the audio format is supported.",
            WhisperError::UnsupportedAudioFormat => "Audio format not supported. Expected 16kHz mono PCM.",
            WhisperError::TranscriptionFailed => "Transcription failed. Please check the audio file and model compatibility.",
            WhisperError::VadModelNotFound => "VAD model not found. Please ensure the VAD model file is valid and accessible.",
        }
    }
}

/// Result type for transcription operations.
pub type WhisperResult<T> = Result<T, WhisperError>;

} // verus!
