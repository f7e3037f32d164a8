//! Existence checks on paths.  What the filesystem holds can only be asked
//! of it; the classification of the answer is verified.

use vstd::prelude::*;

use crate::files::errors::FileError;
use crate::files::errors::FileResult;

verus! {

/// Relies on std::path::Path::exists: whether the path points at an existing
/// entity.  The answer depends on the state of the filesystem, so nothing is
/// promised of it.
#[verifier::external_body]
pub fn file_exists(file_path: &str) -> bool {
    std::path::Path::new(file_path).exists()
}

/// Classifies an existence answer for `file_path`: a missing file is a
/// `FileNotFound` error carrying the path, an existing one is fine.
pub fn existence_result(exists: bool, file_path: &str) -> (r: FileResult<()>)
    ensures
        exists ==> r is Ok,
        !exists ==> (r matches Err(FileError::FileNotFound(p)) && p@ == file_path@),
{
    if exists {
        Ok(())
    } else {
        Err(FileError::FileNotFound(String::from_str(file_path)))
    }
}

/// Asks the filesystem whether `file_path` exists and classifies the
/// answer.  Whatever came back, an error always is `FileNotFound` and always
/// carries the path asked about.
pub fn validate_file_exists(file_path: &str) -> (r: FileResult<()>)
    ensures
        r matches Err(e) ==> (e matches FileError::FileNotFound(p) && p@ == file_path@),
{
    let exists = file_exists(file_path);
    existence_result(exists, file_path)
}

} // verus!
