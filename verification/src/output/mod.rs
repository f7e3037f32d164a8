//! Output format handling for transcription results.

pub mod format;
