//! Application configuration: the settings record and the defaults each
//! getter guarantees.  Loading and saving the record run in the unverified
//! shell; every default and fallback is pinned down here.

pub mod errors;

use vstd::prelude::*;

verus! {

/// Configuration for the transcription service.
#[derive(Debug, Clone)]
pub struct WhisperConfig {
    pub url: Option<String>,
}

/// Configuration for audio recording.
#[derive(Debug, Clone)]
pub struct RecorderConfig {
    pub recordings_directory: Option<String>,
    pub silence_limit: Option<i32>,
    pub silence_detect_noise: Option<i32>,
    pub preferred_audio_input_device: Option<String>,
    pub max_recording_duration: Option<i32>,
}

/// General application behaviour.
#[derive(Debug, Clone)]
pub struct GeneralConfig {
    pub remove_after_transcript: Option<bool>,
}

/// The full configuration record.
#[derive(Debug, Clone)]
pub struct Config {
    pub whisper: WhisperConfig,
    pub recorder: RecorderConfig,
    pub general: GeneralConfig,
}

impl Config {
    /// The transcription service URL, or the local default when unset.
    pub fn get_whisper_url(&self) -> (r: String)
        ensures
            self.whisper.url matches Some(u) ==> r == u,
            self.whisper.url is None ==> r@ == "http://127.0.0.1:9090"@,
    {
        match &self.whisper.url {
            Some(u) => u.clone(),
            None => String::from_str("http://127.0.0.1:9090"),
        }
    }

    /// How many seconds of silence stop a recording; two by default.
    pub fn get_silence_limit(&self) -> (r: i32)
        ensures
            self.recorder.silence_limit matches Some(v) ==> r == v,
            self.recorder.silence_limit is None ==> r == 2,
    {
        match self.recorder.silence_limit {
            Some(v) => v,
            None => 2,
        }
    }

    /// The noise floor in decibels below which audio counts as silence;
    /// forty by default.
    pub fn get_silence_detect_noise(&self) -> (r: i32)
        ensures
            self.recorder.silence_detect_noise matches Some(v) ==> r == v,
            self.recorder.silence_detect_noise is None ==> r == 40,
    {
        match self.recorder.silence_detect_noise {
            Some(v) => v,
            None => 40,
        }
    }

    /// The preferred input device name; empty means no preference.
    pub fn get_preferred_audio_input_device(&self) -> (r: String)
        ensures
            self.recorder.preferred_audio_input_device matches Some(d) ==> r == d,
            self.recorder.preferred_audio_input_device is None ==> r@ == Seq::<char>::empty(),
    {
        match &self.recorder.preferred_audio_input_device {
            Some(d) => d.clone(),
            None => String::new(),
        }
    }

    /// The maximum recording duration in seconds: sixty when unset, zero
    /// (unlimited) when configured non-positive, the configured value
    /// otherwise.
    pub fn get_max_recording_duration(&self) -> (r: i32)
        ensures
            r == (match self.recorder.max_recording_duration {
                None => 60i32,
                Some(d) => if d <= 0 {
                    0i32
                } else {
                    d
                },
            }),
            r >= 0,
    {
        match self.recorder.max_recording_duration {
            None => 60,
            Some(d) => if d <= 0 {
                0
            } else {
                d
            },
        }
    }

    /// Whether recordings are removed after a successful transcription; on
    /// by default.
    pub fn get_remove_after_transcript(&self) -> (r: bool)
        ensures
            self.general.remove_after_transcript matches Some(v) ==> r == v,
            self.general.remove_after_transcript is None ==> r,
    {
        match self.general.remove_after_transcript {
            Some(v) => v,
            None => true,
        }
    }
}

impl Default for Config {
    /// The configuration written by a reset: every setting present, at its
    /// default value.
    fn default() -> (c: Self)
        ensures
            c.whisper.url matches Some(u) && u@ == "http://127.0.0.1:9090"@,
            c.recorder.recordings_directory matches Some(d) && d@ == Seq::<char>::empty(),
            c.recorder.silence_limit == Some(2i32),
            c.recorder.silence_detect_noise == Some(40i32),
            c.recorder.preferred_audio_input_device matches Some(p) && p@ == Seq::<char>::empty(),
            c.recorder.max_recording_duration == Some(60i32),
            c.general.remove_after_transcript == Some(true),
    {
        Config {
            whisper: WhisperConfig { url: Some(String::from_str("http://127.0.0.1:9090")) },
            recorder: RecorderConfig {
                recordings_directory: Some(String::new()),
                silence_limit: Some(2),
                silence_detect_noise: Some(40),
                preferred_audio_input_device: Some(String::new()),
                max_recording_duration: Some(60),
            },
            general: GeneralConfig { remove_after_transcript: Some(true) },
        }
    }
}

} // verus!
