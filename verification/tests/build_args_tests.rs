use lumine::audio::platform::get_platform;
use lumine::audio::platform::linux::LinuxPlatform;
use lumine::audio::platform::macos::MacOSPlatform;
use lumine::audio::platform::AudioPlatform;
use lumine::audio::platform::Platform;

#[test]
fn macos_arguments_without_duration_limit() {
    let p = MacOSPlatform::new();
    let args = p.build_ffmpeg_recording_arguments("1".to_string(), 2, 40, 0, "out.wav".to_string());
    assert_eq!(
        args,
        vec![
            "-f",
            "avfoundation",
            "-i",
            ":1",
            "-acodec",
            "pcm_s16le",
            "-af",
            "silencedetect=n=-40dB:d=2",
            "out.wav",
            "-y",
        ]
    );
    assert!(!args.contains(&"-t".to_string()));
}

#[test]
fn macos_arguments_with_duration_limit() {
    let p = MacOSPlatform::new();
    let args =
        p.build_ffmpeg_recording_arguments("1".to_string(), 2, 40, 30, "out.wav".to_string());
    assert_eq!(
        args,
        vec![
            "-f",
            "avfoundation",
            "-i",
            ":1",
            "-acodec",
            "pcm_s16le",
            "-af",
            "silencedetect=n=-40dB:d=2",
            "-t",
            "30",
            "out.wav",
            "-y",
        ]
    );
}

#[test]
fn linux_arguments_without_duration_limit() {
    let p = LinuxPlatform::new();
    let args = p.build_ffmpeg_recording_arguments(
        "alsa_input.analog".to_string(),
        3,
        35,
        0,
        "rec/a.wav".to_string(),
    );
    assert_eq!(
        args,
        vec![
            "-f",
            "pulse",
            "-i",
            ":alsa_input.analog",
            "-acodec",
            "pcm_s16le",
            "-af",
            "silencedetect=n=-35dB:d=3",
            "rec/a.wav",
            "-y",
        ]
    );
    assert!(!args.contains(&"-t".to_string()));
}

#[test]
fn linux_arguments_with_duration_limit() {
    let p = LinuxPlatform::new();
    let args =
        p.build_ffmpeg_recording_arguments("0".to_string(), 2, 40, 125, "a.wav".to_string());
    assert!(args.contains(&"-t".to_string()));
    assert!(args.contains(&"125".to_string()));
    assert_eq!(args[8], "-t");
    assert_eq!(args[9], "125");
}

#[test]
fn building_twice_gives_identical_argument_lists() {
    let p = MacOSPlatform::new();
    let first =
        p.build_ffmpeg_recording_arguments("2".to_string(), 5, 30, 60, "x.wav".to_string());
    let second =
        p.build_ffmpeg_recording_arguments("2".to_string(), 5, 30, 60, "x.wav".to_string());
    assert_eq!(first, second);
}

#[test]
fn platform_choice_follows_the_stated_system() {
    match get_platform(true) {
        Platform::MacOS(_) => {}
        Platform::Linux(_) => panic!("expected the AVFoundation platform"),
    }
    match get_platform(false) {
        Platform::Linux(_) => {}
        Platform::MacOS(_) => panic!("expected the PulseAudio platform"),
    }
}
