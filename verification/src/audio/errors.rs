//! Audio recording and conversion errors.

use vstd::prelude::*;

use crate::capture::CaptureError;

verus! {

/// Errors that can occur during audio recording and conversion.
#[derive(Debug, Clone)]
pub enum AudioError {
    FileNotFound(String),
    ConversionFailed,
    FFMPEGNotFound,
    CouldNotExecuteFFMPEG,
    CouldNotReadFFMPEGOutput,
    CouldNotCreateDirectory,
}

/// Maps a capture failure onto this module's error type.
pub fn audio_error_of_capture(e: CaptureError) -> (r: AudioError)
    ensures
        e is BackendUnavailable ==> r is FFMPEGNotFound,
        e is BackendExecutionFailed ==> r is CouldNotExecuteFFMPEG,
        e is DiagnosticStreamUnavailable ==> r is CouldNotReadFFMPEGOutput,
        e is StorageUnavailable ==> r is CouldNotCreateDirectory,
{
    match e {
        CaptureError::BackendUnavailable => AudioError::FFMPEGNotFound,
        CaptureError::BackendExecutionFailed => AudioError::CouldNotExecuteFFMPEG,
        CaptureError::DiagnosticStreamUnavailable => AudioError::CouldNotReadFFMPEGOutput,
        CaptureError::StorageUnavailable => AudioError::CouldNotCreateDirectory,
    }
}

impl AudioError {
    /// The user-facing description of the failure.
    pub fn message(&self) -> (m: String)
        ensures
            match self {
                AudioError::FileNotFound(f) => m@ == "Audio file not found: '"@ + f@
                    + "'. Please check the file path."@,
                AudioError::ConversionFailed => m@
                    == "Failed to convert audio to Whisper format. Please check FFmpeg installation and file permissions."@,
                AudioError::FFMPEGNotFound => m@
                    == "FFmpeg not found. Please install FFmpeg and ensure it's in your PATH."@,
                AudioError::CouldNotExecuteFFMPEG => m@
                    == "Failed to run FFmpeg. Please check if FFmpeg is properly installed and has permission to access audio devices."@,
                AudioError::CouldNotReadFFMPEGOutput => m@
                    == "Unable to read FFmpeg output. This might be due to permission issues or corrupted FFmpeg installation."@,
                AudioError::CouldNotCreateDirectory => m@
                    == "Cannot create recordings directory. Please check file permissions and available disk space."@,
            },
    {
        match self {
            AudioError::FileNotFound(f) => {
                let mut m = String::from_str("Audio file not found: '");
                m.append(f.as_str());
                m.append("'. Please check the file path.");
                m
            },
            AudioError::ConversionFailed => String::from_str(
                "Failed to convert audio to Whisper format. Please check FFmpeg installation and file permissions.",
            ),
            AudioError::FFMPEGNotFound => String::from_str(
                "FFmpeg not found. Please install FFmpeg and ensure it's in your PATH.",
            ),
            AudioError::CouldNotExecuteFFMPEG => String::from_str(
                "Failed to run FFmpeg. Please check if FFmpeg is properly installed and has permission to access audio devices.",
            ),
            AudioError::CouldNotReadFFMPEGOutput => String::from_str(
                "Unable to read FFmpeg output. This might be due to permission issues or corrupted FFmpeg installation.",
            ),
            AudioError::CouldNotCreateDirectory => String::from_str(
                "Cannot create recordings directory. Please check file permissions and available disk space.",
            ),
        }
    }
}

/// Result type for audio operations.
pub type AudioResult<T> = Result<T, AudioError>;

} // verus!
