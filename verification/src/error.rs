//! The uniform error value produced at every fallible boundary: a
//! human-readable message, the file name and option set at the point of
//! failure, and the underlying host I/O error.

use vstd::prelude::*;
use crate::options::FileOptions;

verus! {

/// The host I/O error type.  Verus cannot look inside it, so it is declared
/// here and carried through the library opaquely.
#[verifier::external_type_specification]
#[verifier::external_body]
pub struct ExIoError(std::io::Error);

/// Relies on std::io::Error::new: builds an invalid-input host error
/// carrying the given message, for failures caught before any host call.
#[verifier::external_body]
fn invalid_input_error(message: &str) -> std::io::Error {
    std::io::Error::new(std::io::ErrorKind::InvalidInput, message)
}

/// The failure value returned by every fallible operation.  The context
/// fields are always populated at the point of failure; the value is never
/// retried or mutated afterwards.
pub struct FileError {
    pub message: String,
    pub file_options: FileOptions,
    pub file_name: String,
    pub underlying_error: std::io::Error,
}

impl FileError {
    /// Wraps a host I/O error verbatim, together with the diagnostic
    /// context of the call that failed.
    pub fn from_io(
        message: String,
        file_options: FileOptions,
        file_name: String,
        underlying_error: std::io::Error,
    ) -> (r: FileError)
        ensures
            r.message == message,
            r.file_options == file_options,
            r.file_name == file_name,
            r.underlying_error == underlying_error,
    {
        FileError { message, file_options, file_name, underlying_error }
    }

    /// The validation failure produced when an option set still carries the
    /// uninitialized sentinel at open time.
    pub fn options_uninitialized(file_options: FileOptions, file_name: String) -> (r: FileError)
        ensures
            r.message@ == "Options uninitialized"@,
            r.file_options == file_options,
            r.file_name@ == file_name@,
    {
        FileError {
            message: "Options uninitialized".to_string(),
            file_options,
            file_name,
            underlying_error: invalid_input_error("Options uninitialized"),
        }
    }
}

} // verus!
