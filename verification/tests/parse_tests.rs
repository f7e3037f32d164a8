use lumine::audio::platform::linux::LinuxPlatform;
use lumine::audio::platform::macos::MacOSPlatform;
use lumine::audio::platform::AudioPlatform;
use lumine::ffmpeg::FFMPEG;

const MAC_LISTING: &str = "\
[AVFoundation indev @ 0x7f8] AVFoundation video devices:\n\
[AVFoundation indev @ 0x7f8] [0] FaceTime HD Camera\n\
[AVFoundation indev @ 0x7f8] AVFoundation audio devices:\n\
[AVFoundation indev @ 0x7f8] [0] MacBook Pro Microphone\n\
[AVFoundation indev @ 0x7f8] [1] USB Audio Device\n\
: Input/output error\n";

#[test]
fn avfoundation_listing_is_parsed_in_order() {
    let p = MacOSPlatform::new();
    let devices = p.get_audio_input_devices(MAC_LISTING);
    assert_eq!(devices.len(), 2);
    assert_eq!(devices[0].get_index(), "0");
    assert_eq!(devices[0].get_name(), "MacBook Pro Microphone");
    assert_eq!(devices[1].get_index(), "1");
    assert_eq!(devices[1].get_name(), "USB Audio Device");
}

#[test]
fn video_entries_before_the_audio_header_are_ignored() {
    let p = MacOSPlatform::new();
    let devices = p.get_audio_input_devices(
        "[AVFoundation indev @ 0x7f8] AVFoundation video devices:\n\
         [AVFoundation indev @ 0x7f8] [0] FaceTime HD Camera\n",
    );
    assert!(devices.is_empty());
}

#[test]
fn an_empty_listing_gives_an_empty_catalog() {
    let p = MacOSPlatform::new();
    assert!(p.get_audio_input_devices("").is_empty());
    let l = LinuxPlatform::new();
    assert!(l.get_audio_input_devices("").is_empty());
}

#[test]
fn ffmpeg_parses_the_avfoundation_listing() {
    let f = FFMPEG::new(String::new(), 2, 40, String::new(), false);
    let devices = f.parse_audio_input_devices(MAC_LISTING);
    assert_eq!(devices.len(), 2);
    assert_eq!(devices[1].get_name(), "USB Audio Device");
}

const PULSE_LISTING: &str = "\
Auto-detected sources for pulse:\n\
  alsa_output.pci-0000_00_1f.3.analog-stereo.monitor [Monitor of Built-in Audio Analog Stereo]\n\
* alsa_input.pci-0000_00_1f.3.analog-stereo [Built-in Audio Analog Stereo]\n\
  alsa_input.usb-Blue_Yeti.analog-stereo [Yeti Stereo Microphone]\n";

#[test]
fn pulse_listing_keeps_only_input_sources() {
    let p = LinuxPlatform::new();
    let devices = p.get_audio_input_devices(PULSE_LISTING);
    assert_eq!(devices.len(), 2);
    assert_eq!(devices[0].get_index(), "alsa_input.pci-0000_00_1f.3.analog-stereo");
    assert_eq!(devices[0].get_name(), "Built-in Audio Analog Stereo");
    assert_eq!(devices[1].get_index(), "alsa_input.usb-Blue_Yeti.analog-stereo");
    assert_eq!(devices[1].get_name(), "Yeti Stereo Microphone");
}

#[test]
fn pulse_entries_before_the_header_are_ignored() {
    let p = LinuxPlatform::new();
    let devices =
        p.get_audio_input_devices("  alsa_input.pci.analog-stereo [Built-in Audio]\n");
    assert!(devices.is_empty());
}

#[test]
fn version_probe_recognizes_the_tool() {
    assert!(FFMPEG::version_probe_ok(
        "ffmpeg version 6.1.1 Copyright (c) 2000-2023 the FFmpeg developers\n"
    ));
    assert!(!FFMPEG::version_probe_ok(""));
    assert!(!FFMPEG::version_probe_ok("command not found: ffmpeg\n"));
}

#[test]
fn selection_picks_first_match_from_parsed_listing() {
    let p = LinuxPlatform::new();
    let devices = p.get_audio_input_devices(PULSE_LISTING);
    let d = p.select_audio_input_device(&devices, "Yeti");
    assert_eq!(d.get_name(), "Yeti Stereo Microphone");
    let fallback = p.select_audio_input_device(&devices, "Nonexistent Device");
    assert_eq!(fallback.get_name(), "default");
    assert_eq!(fallback.get_index(), "default");
}
