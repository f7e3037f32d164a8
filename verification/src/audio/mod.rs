//! Audio capture: devices, platform capabilities, recording and conversion
//! configuration.

pub mod converter;
pub mod devices;
pub mod errors;
pub mod platform;
pub mod recorder;

use vstd::prelude::*;

verus! {

/// Recording and conversion settings for one capture session.
#[derive(Debug, Clone)]
pub struct Audio {
    pub recordings_directory: String,
    pub silence_limit: i32,
    pub silence_detect_noise: i32,
    pub preferred_audio_input_device: String,
    pub max_recording_duration: i32,
}

impl Audio {
    /// Creates an audio session configuration.
    pub fn new(
        recordings_directory: String,
        silence_limit: i32,
        silence_detect_noise: i32,
        preferred_audio_input_device: String,
        max_recording_duration: i32,
    ) -> (a: Self)
        ensures
            a.recordings_directory == recordings_directory,
            a.silence_limit == silence_limit,
            a.silence_detect_noise == silence_detect_noise,
            a.preferred_audio_input_device == preferred_audio_input_device,
            a.max_recording_duration == max_recording_duration,
    {
        Audio {
            recordings_directory,
            silence_limit,
            silence_detect_noise,
            preferred_audio_input_device,
            max_recording_duration,
        }
    }
}

} // verus!
