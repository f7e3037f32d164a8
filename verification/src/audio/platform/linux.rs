//! The PulseAudio flavour of the platform interface: device entries are
//! "<id> [<name>]" tokens on lines that carry an "_input" marker, listed
//! after an "Auto-detected sources for pulse" header line.

use vstd::prelude::*;

use crate::audio::devices::models;
use crate::audio::devices::select_device;
use crate::audio::devices::AudioInputDevice;
use crate::audio::devices::AudioInputDevices;
use crate::audio::devices::DeviceModel;
use crate::audio::platform::build_recording_args;
use crate::audio::platform::spec_recording_args;
use crate::audio::platform::AudioPlatform;
use crate::text::blank_run_end;
use crate::text::contains_seq;
use crate::text::is_blank;
use crate::text::nonblank_run_end;
use crate::text::nonbracket_run_end;
use crate::text::scan_blanks;
use crate::text::scan_nonblanks;
use crate::text::scan_nonbrackets;
use crate::text::spec_lines;
use crate::text::split_lines;
use crate::text::str_contains;

verus! {

/// The header line that opens the source listing.
pub open spec fn pulse_header() -> Seq<char> {
    "Auto-detected sources for pulse"@
}

/// The marker that distinguishes capture sources from playback ones.
pub open spec fn input_marker() -> Seq<char> {
    "_input"@
}

/// A source entry anchored at the start of a listing line: optional leading
/// blanks, an optional star marking the default source, the source id, at
/// least one blank, then the source name in square brackets.
pub open spec fn linux_line_device(line: Seq<char>) -> Option<DeviceModel> {
    let lead = blank_run_end(line, 0);
    let start = if lead + 1 < line.len() && line[lead] == '*' && is_blank(line[lead + 1]) {
        lead + 2
    } else {
        lead
    };
    let id_end = nonblank_run_end(line, start);
    if id_end > start && id_end < line.len() {
        let open = blank_run_end(line, id_end);
        if open < line.len() && line[open] == '[' {
            let name_end = nonbracket_run_end(line, open + 1);
            if name_end > open + 1 && name_end < line.len() && line[name_end] == ']' {
                Some(
                    DeviceModel {
                        index: line.subrange(start, id_end),
                        name: line.subrange(open + 1, name_end),
                    },
                )
            } else {
                None
            }
        } else {
            None
        }
    } else {
        None
    }
}

/// The sources described by the listing lines: entries count only on lines
/// that carry the input marker, after a header line has been seen; header
/// lines themselves are never entries.
pub open spec fn pulse_scan(lines: Seq<Seq<char>>, in_section: bool) -> Seq<DeviceModel>
    decreases lines.len(),
{
    if lines.len() == 0 {
        Seq::<DeviceModel>::empty()
    } else if contains_seq(lines.first(), pulse_header()) {
        pulse_scan(lines.drop_first(), true)
    } else if in_section && contains_seq(lines.first(), input_marker()) {
        (match linux_line_device(lines.first()) {
            Some(d) => seq![d],
            None => Seq::<DeviceModel>::empty(),
        }) + pulse_scan(lines.drop_first(), in_section)
    } else {
        pulse_scan(lines.drop_first(), in_section)
    }
}

/// The capture sources that a PulseAudio source listing describes.
pub open spec fn spec_parse_pulse(listing: Seq<char>) -> Seq<DeviceModel> {
    pulse_scan(spec_lines(listing), false)
}

/// Extracts the source entry anchored at the start of one listing line.
pub fn linux_parse_line(line: &str) -> (r: Option<AudioInputDevice>)
    ensures
        match r {
            Some(d) => linux_line_device(line@) == Some(d@),
            None => linux_line_device(line@) is None,
        },
{
    let len = line.unicode_len();
    let lead = scan_blanks(line, 0, len);
    let start = if lead < len && lead + 1 < len && line.get_char(lead) == '*' && {
        let c = line.get_char(lead + 1);
        c == ' ' || c == '\t'
    } {
        lead + 2
    } else {
        lead
    };
    let id_end = scan_nonblanks(line, start, len);
    if !(id_end > start && id_end < len) {
        return None;
    }
    let open = scan_blanks(line, id_end, len);
    if !(open < len && line.get_char(open) == '[') {
        return None;
    }
    let name_end = scan_nonbrackets(line, open + 1, len);
    if !(name_end > open + 1 && name_end < len && line.get_char(name_end) == ']') {
        return None;
    }
    let index = String::from_str(line.substring_char(start, id_end));
    let name = String::from_str(line.substring_char(open + 1, name_end));
    let d = AudioInputDevice::new(index, name);
    assert(linux_line_device(line@) == Some(d@));
    Some(d)
}

/// Walks the listing lines, opening the source section at the header line
/// and collecting every capture entry after it.
pub fn parse_pulse_devices(listing: &str) -> (devices: AudioInputDevices)
    ensures
        models(devices@) == spec_parse_pulse(listing@),
{
    let lines = split_lines(listing);
    let ghost line_views = spec_lines(listing@);
    let mut devices: AudioInputDevices = Vec::new();
    let mut in_section = false;
    let n = lines.len();
    let mut i: usize = 0;
    proof {
        assert(line_views.skip(0) =~= line_views);
        assert(models(devices@) + pulse_scan(line_views, false) =~= pulse_scan(line_views, false));
    }
    while i < n
        invariant
            n == lines@.len(),
            i <= n,
            lines@.map_values(|l: String| l@) == line_views,
            pulse_scan(line_views, false) == models(devices@) + pulse_scan(
                line_views.skip(i as int),
                in_section,
            ),
        decreases n - i,
    {
        proof {
            assert(line_views.skip(i as int).first() == line_views[i as int]);
            assert(line_views.skip(i as int).drop_first() =~= line_views.skip(i + 1));
            assert(lines@[i as int]@ == line_views[i as int]);
        }
        let line = &lines[i];
        if str_contains(line.as_str(), "Auto-detected sources for pulse") {
            in_section = true;
            proof {
                assert(pulse_scan(line_views.skip(i as int), false) == pulse_scan(
                    line_views.skip(i + 1),
                    true,
                ));
                assert(pulse_scan(line_views.skip(i as int), true) == pulse_scan(
                    line_views.skip(i + 1),
                    true,
                ));
            }
        } else if in_section && str_contains(line.as_str(), "_input") {
            match linux_parse_line(line.as_str()) {
                Some(d) => {
                    let ghost old_models = models(devices@);
                    devices.push(d);
                    proof {
                        assert(models(devices@) =~= old_models.push(d@));
                        assert(old_models + pulse_scan(line_views.skip(i as int), true) =~= models(
                            devices@,
                        ) + pulse_scan(line_views.skip(i + 1), true));
                    }
                },
                None => {
                    proof {
                        assert(pulse_scan(line_views.skip(i as int), true) == pulse_scan(
                            line_views.skip(i + 1),
                            true,
                        ));
                    }
                },
            }
        } else {
            proof {
                assert(pulse_scan(line_views.skip(i as int), in_section) == pulse_scan(
                    line_views.skip(i + 1),
                    in_section,
                ));
            }
        }
        i += 1;
    }
    proof {
        assert(line_views.skip(n as int) =~= Seq::<Seq<char>>::empty());
        assert(models(devices@) + pulse_scan(line_views.skip(n as int), in_section) =~= models(
            devices@,
        ));
    }
    devices
}

/// The PulseAudio platform implementation.
pub struct LinuxPlatform {}

impl LinuxPlatform {
    /// Creates a new platform handle.
    pub fn new() -> (p: Self) {
        LinuxPlatform {  }
    }
}

impl AudioPlatform for LinuxPlatform {
    open spec fn spec_parse_devices(listing: Seq<char>) -> Seq<DeviceModel> {
        spec_parse_pulse(listing)
    }

    open spec fn spec_recording_arguments(
        device_index: Seq<char>,
        silence_limit: int,
        silence_detect_noise: int,
        max_recording_duration: int,
        output_file: Seq<char>,
    ) -> Seq<Seq<char>> {
        spec_recording_args(
            "pulse"@,
            device_index,
            silence_limit,
            silence_detect_noise,
            max_recording_duration,
            output_file,
        )
    }

    fn get_audio_input_devices(&self, listing: &str) -> (devices: AudioInputDevices) {
        parse_pulse_devices(listing)
    }

    fn select_audio_input_device(&self, devices: &AudioInputDevices, preferred: &str) -> (d:
        AudioInputDevice) {
        select_device(devices, preferred)
    }

    fn build_ffmpeg_recording_arguments(
        &self,
        device_index: String,
        silence_limit: i32,
        silence_detect_noise: i32,
        max_recording_duration: i32,
        output_file: String,
    ) -> (args: Vec<String>) {
        build_recording_args(
            "pulse",
            device_index.as_str(),
            silence_limit,
            silence_detect_noise,
            max_recording_duration,
            output_file,
        )
    }
}

} // verus!
