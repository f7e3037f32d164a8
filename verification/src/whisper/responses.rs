//! Responses of the transcription service, and the format parameter the
//! service expects for each output format.

use vstd::prelude::*;

use crate::output::format::OutputFormat;

verus! {

/// The service's plain-text response.
#[derive(Debug, Clone)]
pub struct WhisperTextResponse {
    pub text: String,
}

/// The service's simple JSON response: just the transcribed text.
#[derive(Debug, Clone)]
pub struct WhisperJsonResponse {
    pub text: String,
}

/// The format parameter sent to the service: full JSON asks for the verbose
/// form, everything else for the simple one.
pub fn get_whisper_format(format: OutputFormat) -> (r: String)
    ensures
        format is FullJson ==> r@ == "verbose_json"@,
        !(format is FullJson) ==> r@ == "json"@,
{
    match format {
        OutputFormat::Text => String::from_str("json"),
        OutputFormat::Json => String::from_str("json"),
        OutputFormat::FullJson => String::from_str("verbose_json"),
    }
}

} // verus!
