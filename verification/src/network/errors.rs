//! Network operation errors.

use vstd::prelude::*;

verus! {

/// Errors that can occur while talking to the transcription service.
#[derive(Debug, Clone, Copy, PartialEq, Eq, Structural)]
pub enum NetworkError {
    InvalidURL,
    RequestFailed,
    ResponseError,
    DecodeError,
}

impl NetworkError {
    /// The user-facing description of the failure.
    pub fn message(&self) -> (m: &'static str)
        ensures
            match self {
                NetworkError::InvalidURL => m@
                    == "Invalid service URL. Please check your configuration file."@,
                NetworkError::RequestFailed => m@
                    == "Failed to connect to service. Please verify the service is running and accessible."@,
                NetworkError::ResponseError => m@
                    == "Service returned an error. Please check the service logs and try again."@,
                NetworkError::DecodeError => m@
                    == "Failed to decode service response. The service may be experiencing issues or the format may be unsupported."@,
            },
    {
        match self {
            NetworkError::InvalidURL => "Invalid service URL. Please check your configuration file.",
            NetworkError::RequestFailed => "Failed to connect to service. Please verify the service is running and accessible.",
            NetworkError::ResponseError => "Service returned an error. Please check the service logs and try again.",
            NetworkError::DecodeError => "Failed to decode service response. The service may be experiencing issues or the format may be unsupported.",
        }
    }
}

/// Result type for network operations.
pub type NetworkResult<T> = Result<T, NetworkError>;

} // verus!
