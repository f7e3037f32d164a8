use lumine::config::Config;
use lumine::config::GeneralConfig;
use lumine::config::RecorderConfig;
use lumine::config::WhisperConfig;

#[test]
fn test_config_default() {
    let config = Config::default();

    assert_eq!(config.get_whisper_url(), "http://127.0.0.1:9090");
    assert_eq!(config.get_silence_limit(), 2);
    assert_eq!(config.get_silence_detect_noise(), 40);
    assert_eq!(config.get_preferred_audio_input_device(), "");
    assert_eq!(config.get_max_recording_duration(), 60);
    assert!(config.get_remove_after_transcript());
}

fn custom_config() -> Config {
    Config {
        whisper: WhisperConfig { url: Some("http://localhost:8080".to_string()) },
        recorder: RecorderConfig {
            recordings_directory: Some("test_recordings".to_string()),
            silence_limit: Some(30),
            silence_detect_noise: Some(25),
            preferred_audio_input_device: Some("test_device".to_string()),
            max_recording_duration: Some(90),
        },
        general: GeneralConfig { remove_after_transcript: Some(false) },
    }
}

#[test]
fn configured_values_win_over_defaults() {
    let config = custom_config();
    assert_eq!(config.get_whisper_url(), "http://localhost:8080");
    assert_eq!(config.get_silence_limit(), 30);
    assert_eq!(config.get_silence_detect_noise(), 25);
    assert_eq!(config.get_preferred_audio_input_device(), "test_device");
    assert_eq!(config.get_max_recording_duration(), 90);
    assert!(!config.get_remove_after_transcript());
}

#[test]
fn unset_values_fall_back_to_defaults() {
    let config = Config {
        whisper: WhisperConfig { url: None },
        recorder: RecorderConfig {
            recordings_directory: None,
            silence_limit: None,
            silence_detect_noise: None,
            preferred_audio_input_device: None,
            max_recording_duration: None,
        },
        general: GeneralConfig { remove_after_transcript: None },
    };
    assert_eq!(config.get_whisper_url(), "http://127.0.0.1:9090");
    assert_eq!(config.get_silence_limit(), 2);
    assert_eq!(config.get_silence_detect_noise(), 40);
    assert_eq!(config.get_preferred_audio_input_device(), "");
    assert_eq!(config.get_max_recording_duration(), 60);
    assert!(config.get_remove_after_transcript());
}

#[test]
fn nonpositive_duration_means_unlimited() {
    let mut config = custom_config();
    config.recorder.max_recording_duration = Some(0);
    assert_eq!(config.get_max_recording_duration(), 0);
    config.recorder.max_recording_duration = Some(-15);
    assert_eq!(config.get_max_recording_duration(), 0);
    config.recorder.max_recording_duration = Some(1);
    assert_eq!(config.get_max_recording_duration(), 1);
}
