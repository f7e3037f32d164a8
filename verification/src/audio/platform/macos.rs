//! The AVFoundation flavour of the platform interface: device entries are
//! bracket-delimited indexes followed by the device name, listed after an
//! "AVFoundation audio devices" header line.

use vstd::prelude::*;

use crate::audio::devices::models;
use crate::audio::devices::select_device;
use crate::audio::devices::spec_select;
use crate::audio::devices::AudioInputDevice;
use crate::audio::devices::AudioInputDevices;
use crate::audio::devices::DeviceModel;
use crate::audio::platform::build_recording_args;
use crate::audio::platform::spec_recording_args;
use crate::audio::platform::AudioPlatform;
use crate::text::blank_run_end;
use crate::text::contains_seq;
use crate::text::digit_run_end;
use crate::text::scan_blanks;
use crate::text::scan_digits;
use crate::text::spec_lines;
use crate::text::split_lines;
use crate::text::str_contains;
use crate::text::string_views;

verus! {

/// The header line that opens the audio-device section of the listing.
pub open spec fn avfoundation_header() -> Seq<char> {
    "AVFoundation audio devices"@
}

/// A device entry starting exactly at position `i` of a listing line: an
/// opening bracket, at least one digit, a closing bracket, at least one
/// blank, then the device name running to the end of the line.
pub open spec fn mac_entry_at(line: Seq<char>, i: int) -> Option<DeviceModel>
    recommends
        0 <= i,
{
    let d_end = digit_run_end(line, i + 1);
    if 0 <= i && i < line.len() && line[i] == '[' && d_end > i + 1 && d_end < line.len() && line[
        d_end
    ] == ']' {
        let w_end = blank_run_end(line, d_end + 1);
        if w_end > d_end + 1 {
            Some(
                DeviceModel {
                    index: line.subrange(i + 1, d_end),
                    name: line.subrange(w_end, line.len() as int),
                },
            )
        } else {
            None
        }
    } else {
        None
    }
}

/// The leftmost device entry of a listing line, if the line holds one.
pub open spec fn mac_entry_from(line: Seq<char>, i: int) -> Option<DeviceModel>
    decreases line.len() - i,
    when i <= line.len()
{
    if i < 0 || i >= line.len() {
        None
    } else {
        match mac_entry_at(line, i) {
            Some(d) => Some(d),
            None => mac_entry_from(line, i + 1),
        }
    }
}

/// The device that one listing line describes, if any.
pub open spec fn mac_line_device(line: Seq<char>) -> Option<DeviceModel> {
    mac_entry_from(line, 0)
}

/// The devices described by the listing lines: entries count only after a
/// header line has been seen, and header lines themselves are never entries.
pub open spec fn mac_scan(lines: Seq<Seq<char>>, in_section: bool) -> Seq<DeviceModel>
    decreases lines.len(),
{
    if lines.len() == 0 {
        Seq::<DeviceModel>::empty()
    } else if contains_seq(lines.first(), avfoundation_header()) {
        mac_scan(lines.drop_first(), true)
    } else if in_section {
        (match mac_line_device(lines.first()) {
            Some(d) => seq![d],
            None => Seq::<DeviceModel>::empty(),
        }) + mac_scan(lines.drop_first(), in_section)
    } else {
        mac_scan(lines.drop_first(), false)
    }
}

/// The devices that an AVFoundation device listing describes.
pub open spec fn spec_parse_avfoundation(listing: Seq<char>) -> Seq<DeviceModel> {
    mac_scan(spec_lines(listing), false)
}

/// Extracts the leftmost device entry of one listing line.
pub fn mac_parse_line(line: &str) -> (r: Option<AudioInputDevice>)
    ensures
        match r {
            Some(d) => mac_line_device(line@) == Some(d@),
            None => mac_line_device(line@) is None,
        },
{
    let len = line.unicode_len();
    let mut i: usize = 0;
    while i < len
        invariant
            len == line@.len(),
            i <= len,
            mac_entry_from(line@, 0) == mac_entry_from(line@, i as int),
        decreases len - i,
    {
        if line.get_char(i) == '[' {
            let d_end = scan_digits(line, i + 1, len);
            if d_end > i + 1 && d_end < len && line.get_char(d_end) == ']' {
                let w_end = scan_blanks(line, d_end + 1, len);
                if w_end > d_end + 1 {
                    let index = String::from_str(line.substring_char(i + 1, d_end));
                    let name = String::from_str(line.substring_char(w_end, len));
                    let d = AudioInputDevice::new(index, name);
                    assert(mac_entry_at(line@, i as int) == Some(d@));
                    return Some(d);
                }
            }
        }
        assert(mac_entry_at(line@, i as int) is None);
        i += 1;
    }
    None
}

/// Walks the listing lines, opening the device section at the header line
/// and collecting every entry after it.
pub fn parse_avfoundation_devices(listing: &str) -> (devices: AudioInputDevices)
    ensures
        models(devices@) == spec_parse_avfoundation(listing@),
{
    let lines = split_lines(listing);
    let ghost line_views = spec_lines(listing@);
    let mut devices: AudioInputDevices = Vec::new();
    let mut in_section = false;
    let n = lines.len();
    let mut i: usize = 0;
    proof {
        assert(line_views.skip(0) =~= line_views);
        assert(models(devices@) + mac_scan(line_views, false) =~= mac_scan(line_views, false));
    }
    while i < n
        invariant
            n == lines@.len(),
            i <= n,
            lines@.map_values(|l: String| l@) == line_views,
            mac_scan(line_views, false) == models(devices@) + mac_scan(
                line_views.skip(i as int),
                in_section,
            ),
        decreases n - i,
    {
        proof {
            assert(line_views.skip(i as int).first() == line_views[i as int]);
            assert(line_views.skip(i as int).drop_first() =~= line_views.skip(i + 1));
            assert(lines@[i as int]@ == line_views[i as int]);
        }
        let line = &lines[i];
        if str_contains(line.as_str(), "AVFoundation audio devices") {
            in_section = true;
            proof {
                assert(mac_scan(line_views.skip(i as int), false) == mac_scan(
                    line_views.skip(i + 1),
                    true,
                ));
                assert(mac_scan(line_views.skip(i as int), true) == mac_scan(
                    line_views.skip(i + 1),
                    true,
                ));
            }
        } else if in_section {
            match mac_parse_line(line.as_str()) {
                Some(d) => {
                    let ghost old_models = models(devices@);
                    devices.push(d);
                    proof {
                        assert(models(devices@) =~= old_models.push(d@));
                        assert(old_models + mac_scan(line_views.skip(i as int), true) =~= models(
                            devices@,
                        ) + mac_scan(line_views.skip(i + 1), true));
                    }
                },
                None => {
                    proof {
                        assert(mac_scan(line_views.skip(i as int), true) == mac_scan(
                            line_views.skip(i + 1),
                            true,
                        ));
                    }
                },
            }
        } else {
            proof {
                assert(mac_scan(line_views.skip(i as int), false) == mac_scan(
                    line_views.skip(i + 1),
                    false,
                ));
            }
        }
        i += 1;
    }
    proof {
        assert(line_views.skip(n as int) =~= Seq::<Seq<char>>::empty());
        assert(models(devices@) + mac_scan(line_views.skip(n as int), in_section) =~= models(
            devices@,
        ));
    }
    devices
}

/// The AVFoundation platform implementation.
pub struct MacOSPlatform {}

impl MacOSPlatform {
    /// Creates a new platform handle.
    pub fn new() -> (p: Self) {
        MacOSPlatform {  }
    }
}

impl AudioPlatform for MacOSPlatform {
    open spec fn spec_parse_devices(listing: Seq<char>) -> Seq<DeviceModel> {
        spec_parse_avfoundation(listing)
    }

    open spec fn spec_recording_arguments(
        device_index: Seq<char>,
        silence_limit: int,
        silence_detect_noise: int,
        max_recording_duration: int,
        output_file: Seq<char>,
    ) -> Seq<Seq<char>> {
        spec_recording_args(
            "avfoundation"@,
            device_index,
            silence_limit,
            silence_detect_noise,
            max_recording_duration,
            output_file,
        )
    }

    fn get_audio_input_devices(&self, listing: &str) -> (devices: AudioInputDevices) {
        parse_avfoundation_devices(listing)
    }

    fn select_audio_input_device(&self, devices: &AudioInputDevices, preferred: &str) -> (d:
        AudioInputDevice) {
        select_device(devices, preferred)
    }

    fn build_ffmpeg_recording_arguments(
        &self,
        device_index: String,
        silence_limit: i32,
        silence_detect_noise: i32,
        max_recording_duration: i32,
        output_file: String,
    ) -> (args: Vec<String>) {
        build_recording_args(
            "avfoundation",
            device_index.as_str(),
            silence_limit,
            silence_detect_noise,
            max_recording_duration,
            output_file,
        )
    }
}

} // verus!
