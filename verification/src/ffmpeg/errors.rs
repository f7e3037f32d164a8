//! Recorder tool errors.

use vstd::prelude::*;

use crate::capture::CaptureError;

verus! {

/// Errors that can occur while driving the recorder tool.
#[derive(Debug, Clone, Copy, PartialEq, Eq, Structural)]
pub enum FFMPEGError {
    NotFound,
    CouldNotExecute,
    CouldNotReadOutput,
    CouldNotCreateDirectory,
}

/// Maps a capture failure onto this module's error type.
pub fn from_capture_error(e: CaptureError) -> (r: FFMPEGError)
    ensures
        e is BackendUnavailable ==> r is NotFound,
        e is BackendExecutionFailed ==> r is CouldNotExecute,
        e is DiagnosticStreamUnavailable ==> r is CouldNotReadOutput,
        e is StorageUnavailable ==> r is CouldNotCreateDirectory,
{
    match e {
        CaptureError::BackendUnavailable => FFMPEGError::NotFound,
        CaptureError::BackendExecutionFailed => FFMPEGError::CouldNotExecute,
        CaptureError::DiagnosticStreamUnavailable => FFMPEGError::CouldNotReadOutput,
        CaptureError::StorageUnavailable => FFMPEGError::CouldNotCreateDirectory,
    }
}

impl FFMPEGError {
    /// The user-facing description of the failure.
    pub fn message(&self) -> (m: &'static str)
        ensures
            match self {
                FFMPEGError::NotFound => m@
                    == "FFmpeg not found. Please install FFmpeg and ensure it's in your PATH."@,
                FFMPEGError::CouldNotExecute => m@
                    == "Failed to run FFmpeg. Please check if FFmpeg is properly installed and has permission to access audio devices."@,
                FFMPEGError::CouldNotReadOutput => m@
                    == "Unable to read FFmpeg output. This might be due to permission issues or corrupted FFmpeg installation."@,
                FFMPEGError::CouldNotCreateDirectory => m@
                    == "Cannot create recordings directory. Please check file permissions and available disk space."@,
            },
    {
        match self {
            FFMPEGError::NotFound => "FFmpeg not found. Please install FFmpeg and ensure it's in your PATH.",
            FFMPEGError::CouldNotExecute => "Failed to run FFmpeg. Please check if FFmpeg is properly installed and has permission to access audio devices.",
            FFMPEGError::CouldNotReadOutput => "Unable to read FFmpeg output. This might be due to permission issues or corrupted FFmpeg installation.",
            FFMPEGError::CouldNotCreateDirectory => "Cannot create recordings directory. Please check file permissions and available disk space.",
        }
    }
}

/// Result type for recorder operations.
pub type FFMPEGResult<T> = Result<T, FFMPEGError>;

} // verus!
