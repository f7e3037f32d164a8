//! Configuration errors.

use vstd::prelude::*;

verus! {

/// Errors that can occur while loading or saving the configuration.
#[derive(Debug, Clone)]
pub enum ConfigError {
    FileRead(String),
    FileWrite(String),
    Parse(String),
    Serialize(String),
}

impl ConfigError {
    /// The user-facing description of the failure.
    pub fn message(&self) -> (m: String)
        ensures
            match self {
                ConfigError::FileRead(d) => m@ == "Cannot read configuration file: "@ + d@
                    + ". Please check file permissions and ensure the file exists."@,
                ConfigError::FileWrite(d) => m@ == "Cannot save configuration file: "@ + d@
                    + ". Please check permissions and available disk space."@,
                ConfigError::Parse(d) => m@ == "Configuration file is invalid: "@ + d@
                    + ". Please check the syntax and ensure all required fields are present."@,
                ConfigError::Serialize(d) => m@ == "Failed to process configuration: "@ + d@
                    + ". Please check your configuration values."@,
            },
    {
        match self {
            ConfigError::FileRead(d) => {
                let mut m = String::from_str("Cannot read configuration file: ");
                m.append(d.as_str());
                m.append(". Please check file permissions and ensure the file exists.");
                m
            },
            ConfigError::FileWrite(d) => {
                let mut m = String::from_str("Cannot save configuration file: ");
                m.append(d.as_str());
                m.append(". Please check permissions and available disk space.");
                m
            },
            ConfigError::Parse(d) => {
                let mut m = String::from_str("Configuration file is invalid: ");
                m.append(d.as_str());
                m.append(". Please check the syntax and ensure all required fields are present.");
                m
            },
            ConfigError::Serialize(d) => {
                let mut m = String::from_str("Failed to process configuration: ");
                m.append(d.as_str());
                m.append(". Please check your configuration values.");
                m
            },
        }
    }
}

/// Result type for configuration operations.
pub type ConfigResult<T> = Result<T, ConfigError>;

} // verus!
