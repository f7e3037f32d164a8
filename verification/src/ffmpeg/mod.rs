//! The recorder tool front end: recording configuration, device listing
//! grammar and device selection.  Spawning the tool and reading its stream
//! are driven by the unverified shell through the capture supervisor.

pub mod devices;
pub mod errors;

use vstd::prelude::*;

use crate::audio::devices::models;
use crate::audio::devices::spec_select;
use crate::audio::devices::AudioInputDevice;
use crate::audio::devices::AudioInputDevices;
use crate::audio::devices::select_device;
use crate::audio::platform::macos::parse_avfoundation_devices;
use crate::audio::platform::macos::spec_parse_avfoundation;
use crate::capture::version_marker;
use crate::text::contains_seq;
use crate::text::str_contains;

verus! {

/// Recording configuration for the recorder tool.
#[derive(Debug, Clone)]
pub struct FFMPEG {
    pub recordings_directory: String,
    pub silence_limit: i32,
    pub silence_detect_noise: i32,
    pub prefered_audio_input_device: String,
    pub verbose: bool,
}

impl FFMPEG {
    /// Creates a recording configuration.
    pub fn new(
        recordings_directory: String,
        silence_limit: i32,
        silence_detect_noise: i32,
        prefered_audio_input_device: String,
        verbose: bool,
    ) -> (f: Self)
        ensures
            f.recordings_directory == recordings_directory,
            f.silence_limit == silence_limit,
            f.silence_detect_noise == silence_detect_noise,
            f.prefered_audio_input_device == prefered_audio_input_device,
            f.verbose == verbose,
    {
        FFMPEG {
            recordings_directory,
            silence_limit,
            silence_detect_noise,
            prefered_audio_input_device,
            verbose,
        }
    }

    /// Whether the tool's version probe output confirms its presence: some
    /// part of it must carry the version marker.
    pub fn version_probe_ok(probe_output: &str) -> (ok: bool)
        ensures
            ok == contains_seq(probe_output@, version_marker()),
    {
        str_contains(probe_output, "ffmpeg version")
    }

    /// Extracts the available input devices from the tool's device-listing
    /// output.
    pub fn parse_audio_input_devices(&self, listing: &str) -> (devices: AudioInputDevices)
        ensures
            models(devices@) == spec_parse_avfoundation(listing@),
    {
        parse_avfoundation_devices(listing)
    }

    /// Selects the first listed device whose name contains the configured
    /// preference; the sentinel when the preference is empty or nothing
    /// matches.
    pub fn select_audio_input_device(&self, devices: AudioInputDevices) -> (d: AudioInputDevice)
        ensures
            d@ == spec_select(models(devices@), self.prefered_audio_input_device@),
    {
        select_device(&devices, self.prefered_audio_input_device.as_str())
    }
}

} // verus!
