use lumine::audio::devices::AudioInputDevice;
use lumine::capture::recording_file_path;
use lumine::capture::CaptureError;
use lumine::capture::CapturePhase;
use lumine::capture::CaptureSupervisor;
use lumine::capture::RecordingRequest;
use lumine::capture::SilenceMonitor;
use lumine::capture::TerminationState;

fn request(output_path: &str) -> RecordingRequest {
    RecordingRequest {
        device: AudioInputDevice::new("1".to_string(), "USB Microphone".to_string()),
        silence_limit_seconds: 2,
        noise_floor_db: 40,
        max_duration_seconds: 0,
        output_path: output_path.to_string(),
    }
}

const PROBE_OK: &str = "ffmpeg version 6.1.1 Copyright (c) 2000-2023\nbuilt with gcc\n";

#[test]
fn scenario_clean_exit_returns_path() {
    let mut sup = CaptureSupervisor::new(request("rec/audiocapture_x.wav"));
    assert!(sup.on_version_probe(PROBE_OK));
    sup.on_directory_ready(true);
    sup.on_spawned(true, true);
    assert_eq!(sup.on_line("size=     100kB time=00:00:03.00 bitrate= 256.0kbits/s"), None);
    assert_eq!(sup.on_line("video:0kB audio:100kB subtitle:0kB"), None);
    sup.on_stream_end();
    let r = sup.on_exit(true, true, Some(0), None);
    assert_eq!(r, Ok("rec/audiocapture_x.wav".to_string()));
    assert_eq!(sup.phase, CapturePhase::Done);
}

#[test]
fn scenario_silence_timeout_kill_is_success() {
    let mut sup = CaptureSupervisor::new(request("out.wav"));
    assert!(sup.on_version_probe(PROBE_OK));
    sup.on_directory_ready(true);
    sup.on_spawned(true, true);
    let timer = sup.on_line("[silencedetect @ 0x7f] silence_start: 1.60008");
    let g = timer.expect("silence start must arm a timer");
    // the countdown elapses with no sound; the kill must be granted
    assert!(sup.on_timer_fired(g));
    assert!(sup.supervisor_killed);
    sup.on_stream_end();
    // killed by the supervisor's own signal: success
    let r = sup.on_exit(true, false, None, Some(9));
    assert_eq!(r, Ok("out.wav".to_string()));
    assert_eq!(sup.phase, CapturePhase::Done);
}

#[test]
fn scenario_sound_resumes_no_kill() {
    let mut sup = CaptureSupervisor::new(request("out.wav"));
    assert!(sup.on_version_probe(PROBE_OK));
    sup.on_directory_ready(true);
    sup.on_spawned(true, true);
    let g = sup
        .on_line("[silencedetect @ 0x7f] silence_start: 1.60008")
        .expect("silence start must arm a timer");
    assert_eq!(sup.on_line("[silencedetect @ 0x7f] silence_end: 2.2 | silence_duration: 0.6"), None);
    // the old countdown fires after the disarm: it must not kill
    assert!(!sup.on_timer_fired(g));
    assert!(!sup.supervisor_killed);
    assert_eq!(sup.on_line("size=     200kB time=00:00:06.00"), None);
    sup.on_stream_end();
    let r = sup.on_exit(true, true, Some(0), None);
    assert_eq!(r, Ok("out.wav".to_string()));
}

#[test]
fn scenario_missing_tool_fails_before_spawn() {
    let mut sup = CaptureSupervisor::new(request("out.wav"));
    let ok = sup.on_version_probe("");
    assert!(!ok);
    assert_eq!(sup.phase, CapturePhase::Failed);
    assert_eq!(sup.failure, Some(CaptureError::BackendUnavailable));
}

#[test]
fn scenario_unwritable_directory_fails_before_spawn() {
    let mut sup = CaptureSupervisor::new(request("out.wav"));
    assert!(sup.on_version_probe(PROBE_OK));
    sup.on_directory_ready(false);
    assert_eq!(sup.phase, CapturePhase::Failed);
    assert_eq!(sup.failure, Some(CaptureError::StorageUnavailable));
}

#[test]
fn scenario_stream_not_attached() {
    let mut sup = CaptureSupervisor::new(request("out.wav"));
    assert!(sup.on_version_probe(PROBE_OK));
    sup.on_directory_ready(true);
    sup.on_spawned(true, false);
    assert_eq!(sup.failure, Some(CaptureError::DiagnosticStreamUnavailable));
}

#[test]
fn scenario_spawn_failure() {
    let mut sup = CaptureSupervisor::new(request("out.wav"));
    assert!(sup.on_version_probe(PROBE_OK));
    sup.on_directory_ready(true);
    sup.on_spawned(false, false);
    assert_eq!(sup.failure, Some(CaptureError::BackendUnavailable));
}

#[test]
fn scenario_abnormal_exit_is_failure() {
    let mut sup = CaptureSupervisor::new(request("out.wav"));
    assert!(sup.on_version_probe(PROBE_OK));
    sup.on_directory_ready(true);
    sup.on_spawned(true, true);
    sup.on_stream_end();
    let r = sup.on_exit(true, false, Some(1), None);
    assert_eq!(r, Err(CaptureError::BackendExecutionFailed));
    assert_eq!(sup.phase, CapturePhase::Failed);
}

#[test]
fn scenario_immediate_stop_code_is_success() {
    let mut sup = CaptureSupervisor::new(request("out.wav"));
    assert!(sup.on_version_probe(PROBE_OK));
    sup.on_directory_ready(true);
    sup.on_spawned(true, true);
    sup.on_stream_end();
    let r = sup.on_exit(true, false, Some(255), None);
    assert_eq!(r, Ok("out.wav".to_string()));
}

#[test]
fn rearm_invalidates_previous_timer() {
    let mut m = SilenceMonitor::new();
    let g1 = m.arm();
    let g2 = m.arm();
    assert_ne!(g1, g2);
    // the superseded countdown must not kill, the live one must
    assert!(!m.on_timer_fired(g1));
    assert!(m.on_timer_fired(g2));
    assert_eq!(m.state, TerminationState::Terminated);
}

#[test]
fn disarm_prevents_kill_for_every_generation() {
    let mut m = SilenceMonitor::new();
    let g = m.arm();
    m.disarm();
    assert!(!m.on_timer_fired(g));
    assert_eq!(m.state, TerminationState::Disarmed);
}

#[test]
fn stale_timer_after_kill_does_not_rekill() {
    let mut m = SilenceMonitor::new();
    let g1 = m.arm();
    assert!(m.on_timer_fired(g1));
    // a duplicate or late firing finds the process already terminated
    assert!(!m.on_timer_fired(g1));
    assert_eq!(m.state, TerminationState::Terminated);
}

#[test]
fn a_line_with_both_markers_ends_disarmed() {
    let mut sup = CaptureSupervisor::new(request("out.wav"));
    assert!(sup.on_version_probe(PROBE_OK));
    sup.on_directory_ready(true);
    sup.on_spawned(true, true);
    let g = sup
        .on_line("silence_start: 1.0 silence_end: 2.0")
        .expect("the start marker still arms");
    assert!(!sup.on_timer_fired(g));
}

#[test]
fn recording_path_layout() {
    let p = recording_file_path("rec", "2024-01-02_03-04-05");
    assert_eq!(p, "rec/audiocapture_2024-01-02_03-04-05.wav");
}
