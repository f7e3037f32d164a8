//! Transcription support: the transcription handle and the classification
//! of service failures.  The HTTP upload and the local-model inference run
//! in the unverified shell.

pub mod errors;
pub mod responses;

use vstd::prelude::*;

use crate::network::errors::NetworkError;
use crate::whisper::errors::WhisperError;

verus! {

/// One transcription request: where to send the audio, or which local model
/// to run, and which file to transcribe.
#[derive(Debug, Clone)]
pub struct Whisper {
    pub use_local: bool,
    pub url: String,
    pub model_path: String,
    pub vad_model_path: String,
    pub file_path: String,
    pub verbose: bool,
}

impl Whisper {
    /// Creates a new transcription request.
    pub fn new(
        use_local: bool,
        url: String,
        model_path: String,
        vad_model_path: String,
        file_path: String,
        verbose: bool,
    ) -> (w: Self)
        ensures
            w.use_local == use_local,
            w.url == url,
            w.model_path == model_path,
            w.vad_model_path == vad_model_path,
            w.file_path == file_path,
            w.verbose == verbose,
    {
        Whisper { use_local, url, model_path, vad_model_path, file_path, verbose }
    }
}

/// Maps a network failure onto the transcription error it surfaces as.
pub fn map_network_error(e: NetworkError) -> (r: WhisperError)
    ensures
        e is RequestFailed ==> r is RequestFailed,
        e is InvalidURL ==> r is InvalidURL,
        e is ResponseError ==> r is ResponseError,
        e is DecodeError ==> r is DecodeError,
{
    match e {
        NetworkError::RequestFailed => WhisperError::RequestFailed,
        NetworkError::InvalidURL => WhisperError::InvalidURL,
        NetworkError::ResponseError => WhisperError::ResponseError,
        NetworkError::DecodeError => WhisperError::DecodeError,
    }
}

} // verus!
