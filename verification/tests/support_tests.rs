use lumine::app::errors::RuntimeError;
use lumine::app::App;
use lumine::audio::converter::conversion_args;
use lumine::audio::converter::whisper_output_path;
use lumine::audio::devices::AudioInputDevice;
use lumine::audio::errors::audio_error_of_capture;
use lumine::audio::errors::AudioError;
use lumine::audio::recorder::AudioRecorder;
use lumine::audio::Audio;
use lumine::capture::CaptureError;
use lumine::config::Config;
use lumine::config::errors::ConfigError;
use lumine::ffmpeg::errors::from_capture_error;
use lumine::ffmpeg::errors::FFMPEGError;
use lumine::files::errors::FileError;
use lumine::files::operations::file_exists;
use lumine::files::operations::validate_file_exists;
use lumine::network::errors::NetworkError;
use lumine::network::probe_status_reachable;
use lumine::network::response_status_ok;
use lumine::network::HttpClient;
use lumine::output::format::OutputFormat;
use lumine::process::errors::ProcessError;
use lumine::text::split_lines;
use lumine::text::str_contains;
use lumine::text::u64_to_string;
use lumine::whisper::errors::WhisperError;
use lumine::whisper::map_network_error;
use lumine::whisper::responses::get_whisper_format;
use lumine::whisper::Whisper;

#[test]
fn substring_search() {
    assert!(str_contains("frame dropped, silence_start: 3.5", "silence_start"));
    assert!(!str_contains("silence_star", "silence_start"));
    assert!(str_contains("anything", ""));
    assert!(!str_contains("", "x"));
}

#[test]
fn line_splitting() {
    let lines = split_lines("a\nb\r\n\nlast");
    assert_eq!(lines, vec!["a", "b", "", "last"]);
    let terminated = split_lines("one\ntwo\n");
    assert_eq!(terminated, vec!["one", "two"]);
    assert!(split_lines("").is_empty());
    assert_eq!(split_lines("\n"), vec![""]);
}

#[test]
fn decimal_rendering() {
    assert_eq!(u64_to_string(0), "0");
    assert_eq!(u64_to_string(7), "7");
    assert_eq!(u64_to_string(40), "40");
    assert_eq!(u64_to_string(120), "120");
    assert_eq!(u64_to_string(98765), "98765");
}

#[test]
fn converted_file_path_is_beside_the_input() {
    assert_eq!(whisper_output_path("rec/audiocapture_1.wav"), "rec/audiocapture_1_whisper.wav");
    assert_eq!(whisper_output_path("voice.mp3"), "voice_whisper.wav");
    assert_eq!(whisper_output_path("/a/b.c.ogg"), "/a/b.c_whisper.wav");
    assert_eq!(whisper_output_path("noext"), "noext_whisper.wav");
    assert_eq!(whisper_output_path(".hidden"), ".hidden_whisper.wav");
    assert_eq!(whisper_output_path("dir/"), "dir/audio_whisper.wav");
}

#[test]
fn conversion_invocation() {
    let args = conversion_args("in.wav", "in_whisper.wav");
    assert_eq!(
        args,
        vec!["-i", "in.wav", "-ar", "16000", "-ac", "1", "-c:a", "pcm_s16le", "in_whisper.wav", "-y"]
    );
}

#[test]
fn existence_check_classifies_the_answer() {
    assert!(file_exists("/"));
    assert!(validate_file_exists("/").is_ok());
    let missing = validate_file_exists("no_such_file_here.xyz");
    match missing {
        Err(FileError::FileNotFound(p)) => assert_eq!(p, "no_such_file_here.xyz"),
        _ => panic!("Expected FileNotFound error"),
    }
}

#[test]
fn error_messages_read_as_documented() {
    assert_eq!(
        FFMPEGError::NotFound.message(),
        "FFmpeg not found. Please install FFmpeg and ensure it's in your PATH."
    );
    assert_eq!(
        NetworkError::RequestFailed.message(),
        "Failed to connect to service. Please verify the service is running and accessible."
    );
    assert_eq!(
        WhisperError::UnsupportedAudioFormat.message(),
        "Audio format not supported. Expected 16kHz mono PCM."
    );
    assert_eq!(
        AudioError::FileNotFound("x.wav".to_string()).message(),
        "Audio file not found: 'x.wav'. Please check the file path."
    );
    assert_eq!(
        ConfigError::Parse("bad key".to_string()).message(),
        "Configuration file is invalid: bad key. Please check the syntax and ensure all required fields are present."
    );
    assert_eq!(
        FileError::DirectoryCreate("/root/x".to_string()).message(),
        "Cannot create directory '/root/x'. Please check permissions."
    );
    assert_eq!(
        RuntimeError::Recording("boom".to_string()).message(),
        "Recording Error: boom. Please verify the recording settings and try again."
    );
    assert_eq!(
        ProcessError::ExecutionFailed("ffmpeg".to_string()).message(),
        "Command 'ffmpeg' failed to execute. Please check the command exists and has proper permissions."
    );
}

#[test]
fn capture_errors_map_onto_module_errors() {
    assert_eq!(from_capture_error(CaptureError::BackendUnavailable), FFMPEGError::NotFound);
    assert_eq!(
        from_capture_error(CaptureError::BackendExecutionFailed),
        FFMPEGError::CouldNotExecute
    );
    assert_eq!(
        from_capture_error(CaptureError::DiagnosticStreamUnavailable),
        FFMPEGError::CouldNotReadOutput
    );
    assert_eq!(
        from_capture_error(CaptureError::StorageUnavailable),
        FFMPEGError::CouldNotCreateDirectory
    );
    assert!(matches!(
        audio_error_of_capture(CaptureError::BackendUnavailable),
        AudioError::FFMPEGNotFound
    ));
    assert!(matches!(
        audio_error_of_capture(CaptureError::StorageUnavailable),
        AudioError::CouldNotCreateDirectory
    ));
}

#[test]
fn network_errors_map_onto_whisper_errors() {
    assert_eq!(map_network_error(NetworkError::RequestFailed), WhisperError::RequestFailed);
    assert_eq!(map_network_error(NetworkError::InvalidURL), WhisperError::InvalidURL);
    assert_eq!(map_network_error(NetworkError::ResponseError), WhisperError::ResponseError);
    assert_eq!(map_network_error(NetworkError::DecodeError), WhisperError::DecodeError);
}

#[test]
fn output_format_flags() {
    assert_eq!(OutputFormat::from_flags(false, false), OutputFormat::Text);
    assert_eq!(OutputFormat::from_flags(true, false), OutputFormat::Json);
    assert_eq!(OutputFormat::from_flags(false, true), OutputFormat::FullJson);
    assert_eq!(OutputFormat::from_flags(true, true), OutputFormat::FullJson);
}

#[test]
fn whisper_format_parameter() {
    assert_eq!(get_whisper_format(OutputFormat::Text), "json");
    assert_eq!(get_whisper_format(OutputFormat::Json), "json");
    assert_eq!(get_whisper_format(OutputFormat::FullJson), "verbose_json");
}

#[test]
fn http_client_assembles_endpoint_urls() {
    let c = HttpClient::new("http://127.0.0.1:9090".to_string(), false);
    assert_eq!(c.endpoint_url("inference"), "http://127.0.0.1:9090/inference");
    assert!(probe_status_reachable(200));
    assert!(probe_status_reachable(404));
    assert!(!probe_status_reachable(500));
    assert!(response_status_ok(200));
    assert!(!response_status_ok(404));
}

#[test]
fn app_assembles_the_audio_session() {
    let app = App::new(Config::default());
    let audio = app.create_audio("rec".to_string());
    assert_eq!(audio.recordings_directory, "rec");
    assert_eq!(audio.silence_limit, 2);
    assert_eq!(audio.silence_detect_noise, 40);
    assert_eq!(audio.preferred_audio_input_device, "");
    assert_eq!(audio.max_recording_duration, 60);
}

#[test]
fn app_assembles_the_transcription_request() {
    let app = App::new(Config::default());
    let w = app.create_whisper_instance("rec/a_whisper.wav".to_string());
    assert!(!w.use_local);
    assert_eq!(w.url, "http://127.0.0.1:9090");
    assert_eq!(w.file_path, "rec/a_whisper.wav");
    assert_eq!(w.model_path, "");
    assert_eq!(w.vad_model_path, "");
}

#[test]
fn whisper_request_holds_its_settings() {
    let w = Whisper::new(
        true,
        "http://h:1".to_string(),
        "model.bin".to_string(),
        "vad.bin".to_string(),
        "f.wav".to_string(),
        true,
    );
    assert!(w.use_local);
    assert_eq!(w.model_path, "model.bin");
    assert_eq!(w.vad_model_path, "vad.bin");
    assert!(w.verbose);
}

#[test]
fn recorder_selects_by_its_configured_preference() {
    let r = AudioRecorder::new("rec".to_string(), 2, 40, "Head".to_string(), false);
    let devices = vec![
        AudioInputDevice::new("0".to_string(), "Built-in Microphone".to_string()),
        AudioInputDevice::new("1".to_string(), "Headset Mic".to_string()),
    ];
    let d = r.select_audio_input_device(devices);
    assert_eq!(d.get_index(), "1");
    assert_eq!(d.get_name(), "Headset Mic");
}

#[test]
fn audio_session_holds_its_settings() {
    let a = Audio::new("rec".to_string(), 3, 35, "USB".to_string(), 0);
    assert_eq!(a.recordings_directory, "rec");
    assert_eq!(a.silence_limit, 3);
    assert_eq!(a.silence_detect_noise, 35);
    assert_eq!(a.preferred_audio_input_device, "USB");
    assert_eq!(a.max_recording_duration, 0);
}
