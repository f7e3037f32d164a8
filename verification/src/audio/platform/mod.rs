//! Platform capability interface: device-listing grammar and recorder
//! argument construction, with one implementation per supported operating
//! system.

pub mod linux;
pub mod macos;

use vstd::prelude::*;

use crate::audio::devices::models;
use crate::audio::devices::spec_select;
use crate::audio::devices::AudioInputDevice;
use crate::audio::devices::AudioInputDevices;
use crate::audio::devices::DeviceModel;
use crate::text::dec_rep;
use crate::text::string_views;
use crate::text::u64_to_string;
use self::linux::LinuxPlatform;
use self::macos::MacOSPlatform;

verus! {

/// The silence-detection filter expression: noise floor as a negative dB
/// threshold, countdown length in seconds.
pub open spec fn spec_silence_filter(silence_detect_noise: int, silence_limit: int) -> Seq<char>
    recommends
        silence_detect_noise >= 0,
        silence_limit >= 0,
{
    "silencedetect=n=-"@ + dec_rep(silence_detect_noise as nat) + "dB:d="@ + dec_rep(
        silence_limit as nat,
    )
}

/// The recorder tool's argument list: input selector for the device, 16-bit
/// little-endian PCM codec, the silence-detection filter, a duration limit
/// when one is requested (zero means unlimited), the output path, and the
/// overwrite flag.
pub open spec fn spec_recording_args(
    input_format: Seq<char>,
    device_index: Seq<char>,
    silence_limit: int,
    silence_detect_noise: int,
    max_recording_duration: int,
    output_file: Seq<char>,
) -> Seq<Seq<char>> {
    let base = seq![
        "-f"@,
        input_format,
        "-i"@,
        ":"@ + device_index,
        "-acodec"@,
        "pcm_s16le"@,
        "-af"@,
        spec_silence_filter(silence_detect_noise, silence_limit),
    ];
    let duration = if max_recording_duration > 0 {
        seq!["-t"@, dec_rep(max_recording_duration as nat)]
    } else {
        Seq::<Seq<char>>::empty()
    };
    base + duration + seq![output_file, "-y"@]
}

/// The flag that limits recording duration.
pub open spec fn duration_flag() -> Seq<char> {
    "-t"@
}

/// Law: argument building is pure — the list is a function of the
/// parameters alone, so any two builds from identical inputs agree.
pub proof fn lemma_recording_args_deterministic(
    input_format: Seq<char>,
    device_index: Seq<char>,
    silence_limit: int,
    silence_detect_noise: int,
    max_recording_duration: int,
    output_file: Seq<char>,
    first: Seq<Seq<char>>,
    second: Seq<Seq<char>>,
)
    requires
        first == spec_recording_args(
            input_format,
            device_index,
            silence_limit,
            silence_detect_noise,
            max_recording_duration,
            output_file,
        ),
        second == spec_recording_args(
            input_format,
            device_index,
            silence_limit,
            silence_detect_noise,
            max_recording_duration,
            output_file,
        ),
    ensures
        first == second,
{
}

/// Law: a zero duration limit never emits the duration flag.  The input
/// format and output path are required to differ from the flag itself, which
/// holds of every real invocation.
pub proof fn lemma_no_duration_flag_when_unlimited(
    input_format: Seq<char>,
    device_index: Seq<char>,
    silence_limit: int,
    silence_detect_noise: int,
    output_file: Seq<char>,
)
    requires
        silence_limit >= 0,
        silence_detect_noise >= 0,
        input_format != duration_flag(),
        output_file != duration_flag(),
    ensures
        !spec_recording_args(
            input_format,
            device_index,
            silence_limit,
            silence_detect_noise,
            0,
            output_file,
        ).contains(duration_flag()),
{
    reveal_strlit("-f");
    reveal_strlit("-i");
    reveal_strlit("-t");
    reveal_strlit("-y");
    reveal_strlit("-acodec");
    reveal_strlit("-af");
    reveal_strlit("pcm_s16le");
    reveal_strlit(":");
    reveal_strlit("silencedetect=n=-");
    let args = spec_recording_args(
        input_format,
        device_index,
        silence_limit,
        silence_detect_noise,
        0,
        output_file,
    );
    let t = duration_flag();
    assert(args.len() == 10);
    assert(("-f"@)[1] != t[1]);
    assert(("-i"@)[1] != t[1]);
    assert(("-y"@)[1] != t[1]);
    assert((":"@ + device_index)[0] != t[0]);
    assert(spec_silence_filter(silence_detect_noise, silence_limit)[0] == 's') by {
        assert(("silencedetect=n=-"@)[0] == 's');
    }
    assert forall|k: int| 0 <= k < args.len() implies args[k] != t by {
        if k == 3 {
            assert(args[3] == ":"@ + device_index);
            assert(args[3][0] != t[0]);
        } else if k == 7 {
            assert(args[7] == spec_silence_filter(silence_detect_noise, silence_limit));
            assert(args[7][0] != t[0]);
        }
    }
    assert(!args.contains(t));
}

/// Law: a positive duration limit always emits the duration flag, followed
/// by the limit in seconds, just before the output path.
pub proof fn lemma_duration_flag_when_limited(
    input_format: Seq<char>,
    device_index: Seq<char>,
    silence_limit: int,
    silence_detect_noise: int,
    max_recording_duration: int,
    output_file: Seq<char>,
)
    requires
        max_recording_duration > 0,
    ensures
        ({
            let args = spec_recording_args(
                input_format,
                device_index,
                silence_limit,
                silence_detect_noise,
                max_recording_duration,
                output_file,
            );
            args.len() == 12 && args[8] == duration_flag() && args[9] == dec_rep(
                max_recording_duration as nat,
            ) && args.contains(duration_flag())
        }),
{
    let args = spec_recording_args(
        input_format,
        device_index,
        silence_limit,
        silence_detect_noise,
        max_recording_duration,
        output_file,
    );
    assert(args[8] == duration_flag());
}

/// Builds the recorder argument list for one platform's input format.
pub fn build_recording_args(
    input_format: &str,
    device_index: &str,
    silence_limit: i32,
    silence_detect_noise: i32,
    max_recording_duration: i32,
    output_file: String,
) -> (args: Vec<String>)
    requires
        silence_limit > 0,
        silence_detect_noise > 0,
        max_recording_duration >= 0,
    ensures
        string_views(args@) == spec_recording_args(
            input_format@,
            device_index@,
            silence_limit as int,
            silence_detect_noise as int,
            max_recording_duration as int,
            output_file@,
        ),
{
    let mut args: Vec<String> = Vec::new();
    args.push(String::from_str("-f"));
    args.push(String::from_str(input_format));
    args.push(String::from_str("-i"));
    let mut device_arg = String::from_str(":");
    device_arg.append(device_index);
    args.push(device_arg);
    args.push(String::from_str("-acodec"));
    args.push(String::from_str("pcm_s16le"));
    args.push(String::from_str("-af"));
    let mut filter = String::from_str("silencedetect=n=-");
    filter.append(u64_to_string(silence_detect_noise as u64).as_str());
    filter.append("dB:d=");
    filter.append(u64_to_string(silence_limit as u64).as_str());
    args.push(filter);
    if max_recording_duration > 0 {
        args.push(String::from_str("-t"));
        args.push(u64_to_string(max_recording_duration as u64));
    }
    args.push(output_file);
    args.push(String::from_str("-y"));
    assert(string_views(args@) =~= spec_recording_args(
        input_format@,
        device_index@,
        silence_limit as int,
        silence_detect_noise as int,
        max_recording_duration as int,
        output_file@,
    ));
    args
}

/// Platform capability interface: how to read the recorder tool's device
/// listing and how to invoke it for a recording.  The termination policy
/// upstream never depends on the platform; only these two concerns do.
pub trait AudioPlatform: Sized {
    /// The devices that a diagnostic device listing of this platform
    /// describes, in listing order.
    spec fn spec_parse_devices(listing: Seq<char>) -> Seq<DeviceModel>;

    /// The recorder invocation this platform requires.
    spec fn spec_recording_arguments(
        device_index: Seq<char>,
        silence_limit: int,
        silence_detect_noise: int,
        max_recording_duration: int,
        output_file: Seq<char>,
    ) -> Seq<Seq<char>>;

    /// Extracts the available input devices from the recorder tool's
    /// device-listing output.  An empty catalog is a valid result, not an
    /// error.
    fn get_audio_input_devices(&self, listing: &str) -> (devices: AudioInputDevices)
        ensures
            models(devices@) == Self::spec_parse_devices(listing@),
    ;

    /// Selects the first device whose name contains the preference, the
    /// sentinel otherwise.
    fn select_audio_input_device(&self, devices: &AudioInputDevices, preferred: &str) -> (d:
        AudioInputDevice)
        ensures
            d@ == spec_select(models(devices@), preferred@),
    ;

    /// Builds the argument list for one recording run.
    fn build_ffmpeg_recording_arguments(
        &self,
        device_index: String,
        silence_limit: i32,
        silence_detect_noise: i32,
        max_recording_duration: i32,
        output_file: String,
    ) -> (args: Vec<String>)
        requires
            silence_limit > 0,
            silence_detect_noise > 0,
            max_recording_duration >= 0,
        ensures
            string_views(args@) == Self::spec_recording_arguments(
                device_index@,
                silence_limit as int,
                silence_detect_noise as int,
                max_recording_duration as int,
                output_file@,
            ),
    ;
}

/// The platform picked for one run; the caller states which operating system
/// it is on.
pub enum Platform {
    Linux(LinuxPlatform),
    MacOS(MacOSPlatform),
}

/// Returns the capability implementation for the stated operating system.
pub fn get_platform(macos: bool) -> (p: Platform)
    ensures
        macos <==> p is MacOS,
{
    if macos {
        Platform::MacOS(MacOSPlatform::new())
    } else {
        Platform::Linux(LinuxPlatform::new())
    }
}

} // verus!
