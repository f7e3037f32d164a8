//! Recording configuration for one capture run.  The run itself is driven
//! by the unverified shell through the capture supervisor.

use vstd::prelude::*;

use crate::audio::devices::models;
use crate::audio::devices::select_device;
use crate::audio::devices::spec_select;
use crate::audio::devices::AudioInputDevice;
use crate::audio::devices::AudioInputDevices;

verus! {

/// Recording configuration: where recordings go and how silence stops them.
#[derive(Debug, Clone)]
pub struct AudioRecorder {
    pub recordings_directory: String,
    pub silence_limit: i32,
    pub silence_detect_noise: i32,
    pub preferred_audio_input_device: String,
    pub verbose: bool,
}

impl AudioRecorder {
    /// Creates a recorder configuration.
    pub fn new(
        recordings_directory: String,
        silence_limit: i32,
        silence_detect_noise: i32,
        preferred_audio_input_device: String,
        verbose: bool,
    ) -> (r: Self)
        ensures
            r.recordings_directory == recordings_directory,
            r.silence_limit == silence_limit,
            r.silence_detect_noise == silence_detect_noise,
            r.preferred_audio_input_device == preferred_audio_input_device,
            r.verbose == verbose,
    {
        AudioRecorder {
            recordings_directory,
            silence_limit,
            silence_detect_noise,
            preferred_audio_input_device,
            verbose,
        }
    }

    /// Selects the first listed device whose name contains the configured
    /// preference; the sentinel when the preference is empty or nothing
    /// matches.
    pub fn select_audio_input_device(&self, devices: AudioInputDevices) -> (d: AudioInputDevice)
        ensures
            d@ == spec_select(models(devices@), self.preferred_audio_input_device@),
    {
        select_device(&devices, self.preferred_audio_input_device.as_str())
    }
}

} // verus!
