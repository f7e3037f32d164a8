//! The output format selected on the command line.

use vstd::prelude::*;

verus! {

/// Output format for transcription results.
#[derive(Debug, Clone, Copy, PartialEq, Eq, Structural)]
pub enum OutputFormat {
    /// Plain text output
    Text,
    /// Simple JSON output with just text
    Json,
    /// Full JSON output with all metadata
    FullJson,
}

impl OutputFormat {
    /// Derives the format from the two command-line flags; the full-JSON
    /// flag wins over the plain-JSON one.
    pub fn from_flags(output_json: bool, output_json_full: bool) -> (f: Self)
        ensures
            output_json_full ==> f is FullJson,
            !output_json_full && output_json ==> f is Json,
            !output_json_full && !output_json ==> f is Text,
    {
        if output_json_full {
            return OutputFormat::FullJson;
        }
        if output_json {
            return OutputFormat::Json;
        }
        OutputFormat::Text
    }
}

} // verus!
