//! Conversion of a recording to the format the transcription model needs:
//! the output path beside the input and the converter invocation are
//! computed here; the converter itself runs in the unverified shell.

use vstd::prelude::*;

use crate::text::string_views;

verus! {

/// The position just after the last path separator of `s`, or zero when it
/// has none.
pub open spec fn after_last_slash(s: Seq<char>) -> int
    decreases s.len(),
{
    if s.len() == 0 {
        0
    } else if s.last() == '/' {
        s.len() as int
    } else {
        after_last_slash(s.drop_last())
    }
}

/// The end of the file stem within a file name: the position of the last
/// dot that is not the leading character, or the whole name when there is
/// no such dot.  Only dots strictly below `j` are considered.
pub open spec fn stem_end_upto(base: Seq<char>, j: int) -> int
    decreases j,
    when j >= 0
{
    if j <= 1 {
        base.len() as int
    } else if base[j - 1] == '.' {
        j - 1
    } else {
        stem_end_upto(base, j - 1)
    }
}

/// The path of the converted file: the input's directory part kept, its
/// file stem suffixed with "_whisper", the extension replaced by ".wav".
/// A path with an empty file name falls back to the stem "audio".
pub open spec fn spec_whisper_output_path(s: Seq<char>) -> Seq<char> {
    let p = after_last_slash(s);
    if p == s.len() {
        s.subrange(0, p) + "audio_whisper.wav"@
    } else {
        let e = stem_end_upto(s.subrange(p, s.len() as int), s.len() - p);
        s.subrange(0, p + e) + "_whisper.wav"@
    }
}

/// Handles audio format conversion for the transcription model: 16kHz mono
/// WAV.
pub struct AudioConverter;

/// Computes the converted file's path beside the input file.
pub fn whisper_output_path(input_file: &str) -> (p: String)
    ensures
        p@ == spec_whisper_output_path(input_file@),
{
    let len = input_file.unicode_len();
    let mut cut: usize = 0;
    let mut i: usize = 0;
    proof {
        assert(input_file@.subrange(0, 0) =~= Seq::<char>::empty());
    }
    while i < len
        invariant
            len == input_file@.len(),
            i <= len,
            cut <= i,
            cut == after_last_slash(input_file@.subrange(0, i as int)),
        decreases len - i,
    {
        proof {
            assert(input_file@.subrange(0, i + 1).drop_last() =~= input_file@.subrange(
                0,
                i as int,
            ));
        }
        if input_file.get_char(i) == '/' {
            cut = i + 1;
        }
        i += 1;
    }
    proof {
        assert(input_file@.subrange(0, len as int) =~= input_file@);
    }
    if cut == len {
        let mut out = String::from_str(input_file.substring_char(0, cut));
        out.append("audio_whisper.wav");
        return out;
    }
    let ghost base = input_file@.subrange(cut as int, len as int);
    let base_len = len - cut;
    let mut e: usize = base_len;
    let mut k: usize = 1;
    proof {
        assert(stem_end_upto(base, 1) == base.len() as int);
    }
    while k < base_len
        invariant
            len == input_file@.len(),
            cut < len,
            base == input_file@.subrange(cut as int, len as int),
            base_len == len - cut,
            1 <= k <= base_len,
            e <= base_len,
            e as int == stem_end_upto(base, k as int),
        decreases base_len - k,
    {
        proof {
            assert(base[k as int] == input_file@[cut + k]);
        }
        if input_file.get_char(cut + k) == '.' {
            e = k;
        }
        k += 1;
    }
    let mut out = String::from_str(input_file.substring_char(0, cut + e));
    out.append("_whisper.wav");
    out
}

/// The converter invocation: resample to 16kHz, mix down to one channel,
/// encode 16-bit little-endian PCM, overwrite the output.
pub open spec fn spec_conversion_args(input_file: Seq<char>, output_file: Seq<char>) -> Seq<
    Seq<char>,
> {
    seq![
        "-i"@,
        input_file,
        "-ar"@,
        "16000"@,
        "-ac"@,
        "1"@,
        "-c:a"@,
        "pcm_s16le"@,
        output_file,
        "-y"@,
    ]
}

/// Builds the converter's argument list.
pub fn conversion_args(input_file: &str, output_file: &str) -> (args: Vec<String>)
    ensures
        string_views(args@) == spec_conversion_args(input_file@, output_file@),
{
    let mut args: Vec<String> = Vec::new();
    args.push(String::from_str("-i"));
    args.push(String::from_str(input_file));
    args.push(String::from_str("-ar"));
    args.push(String::from_str("16000"));
    args.push(String::from_str("-ac"));
    args.push(String::from_str("1"));
    args.push(String::from_str("-c:a"));
    args.push(String::from_str("pcm_s16le"));
    args.push(String::from_str(output_file));
    args.push(String::from_str("-y"));
    assert(string_views(args@) =~= spec_conversion_args(input_file@, output_file@));
    args
}

} // verus!
