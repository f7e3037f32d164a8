//! File operation errors.

use vstd::prelude::*;

verus! {

/// Errors that can occur during file operations.
#[derive(Debug, Clone)]
pub enum FileError {
    DirectoryCreate(String),
    FileRemove(String),
    FileRead(String),
    FileNotFound(String),
}

impl FileError {
    /// The user-facing description of the failure.
    pub fn message(&self) -> (m: String)
        ensures
            match self {
                FileError::DirectoryCreate(d) => m@ == "Cannot create directory '"@ + d@
                    + "'. Please check permissions."@,
                FileError::FileRemove(d) => m@ == "Cannot remove file '"@ + d@
                    + "'. Please check if the file exists and you have permission to delete it."@,
                FileError::FileRead(d) => m@ == "Cannot read file '"@ + d@
                    + "'. Please check if the file exists and you have permission to access it."@,
                FileError::FileNotFound(d) => m@ == "File not found: "@ + d@
                    + ". Please verify the file path and try again."@,
            },
    {
        match self {
            FileError::DirectoryCreate(d) => {
                let mut m = String::from_str("Cannot create directory '");
                m.append(d.as_str());
                m.append("'. Please check permissions.");
                m
            },
            FileError::FileRemove(d) => {
                let mut m = String::from_str("Cannot remove file '");
                m.append(d.as_str());
                m.append("'. Please check if the file exists and you have permission to delete it.");
                m
            },
            FileError::FileRead(d) => {
                let mut m = String::from_str("Cannot read file '");
                m.append(d.as_str());
                m.append("'. Please check if the file exists and you have permission to access it.");
                m
            },
            FileError::FileNotFound(d) => {
                let mut m = String::from_str("File not found: ");
                m.append(d.as_str());
                m.append(". Please verify the file path and try again.");
                m
            },
        }
    }
}

/// Result type for file operations.
pub type FileResult<T> = Result<T, FileError>;

} // verus!
