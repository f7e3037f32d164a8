//! Silence-gated audio capture and transcription library.
//!
//! The heart of the crate is the capture pipeline: enumerating audio input
//! devices, selecting one by a preferred-name substring, building the
//! recorder's argument list, and supervising the recording subprocess with a
//! silence-countdown timer.  All decision logic lives here with machine-checked
//! contracts; process spawning, file and network transfer are driven by a thin
//! unverified shell that feeds events into these functions.

pub mod app;
pub mod audio;
pub mod capture;
pub mod cli;
pub mod config;
pub mod ffmpeg;
pub mod files;
pub mod network;
pub mod output;
pub mod process;
pub mod text;
pub mod whisper;
