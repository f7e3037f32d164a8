//! The application orchestrator: assembles the audio and transcription
//! handles from the configuration.  The workflows that record, convert and
//! transcribe run in the unverified shell around these.

pub mod errors;

use vstd::prelude::*;

use crate::audio::Audio;
use crate::config::Config;
use crate::whisper::Whisper;

verus! {

/// The application orchestrator for one configuration.
pub struct App {
    pub config: Config,
}

impl App {
    /// Creates the orchestrator.
    pub fn new(config: Config) -> (a: Self)
        ensures
            a.config == config,
    {
        App { config }
    }

    /// The audio session for this configuration.  The recordings directory
    /// is resolved by the caller, since an unset one falls back to a
    /// machine-dependent data directory.
    pub fn create_audio(&self, recordings_directory: String) -> (a: Audio)
        ensures
            a.recordings_directory == recordings_directory,
            a.silence_limit == (match self.config.recorder.silence_limit {
                Some(v) => v,
                None => 2i32,
            }),
            a.silence_detect_noise == (match self.config.recorder.silence_detect_noise {
                Some(v) => v,
                None => 40i32,
            }),
            self.config.recorder.preferred_audio_input_device matches Some(d)
                ==> a.preferred_audio_input_device == d,
            self.config.recorder.preferred_audio_input_device is None
                ==> a.preferred_audio_input_device@ == Seq::<char>::empty(),
            a.max_recording_duration == (match self.config.recorder.max_recording_duration {
                None => 60i32,
                Some(d) => if d <= 0 {
                    0i32
                } else {
                    d
                },
            }),
    {
        Audio::new(
            recordings_directory,
            self.config.get_silence_limit(),
            self.config.get_silence_detect_noise(),
            self.config.get_preferred_audio_input_device(),
            self.config.get_max_recording_duration(),
        )
    }

    /// The transcription request for one audio file: remote transcription
    /// against the configured service URL.
    pub fn create_whisper_instance(&self, file_path: String) -> (w: Whisper)
        ensures
            !w.use_local,
            self.config.whisper.url matches Some(u) ==> w.url == u,
            self.config.whisper.url is None ==> w.url@ == "http://127.0.0.1:9090"@,
            w.model_path@ == Seq::<char>::empty(),
            w.vad_model_path@ == Seq::<char>::empty(),
            w.file_path == file_path,
            !w.verbose,
    {
        Whisper::new(
            false,
            self.config.get_whisper_url(),
            String::new(),
            String::new(),
            file_path,
            false,
        )
    }
}

} // verus!
