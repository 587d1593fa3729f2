//! Replies to the two file commands.
//!
//! The host writes or reads the file and hands the outcome over; what goes back across the
//! bridge is decided here. A failure is surfaced as its text and nothing else: it is not
//! sorted into kinds, retried or logged.

use vstd::prelude::*;
use vstd::string::to_string_from_display_ensures;

verus! {

/// `std::io::Error`, the failure of a file operation. It is carried through as it came:
/// nothing is claimed of what it holds.
#[verifier::external_type_specification]
#[verifier::external_body]
pub struct ExIoError(std::io::Error);

/// `message` is the text that `failure` shows as: what its `Display` writes.
pub open spec fn is_text_of(failure: &std::io::Error, message: String) -> bool {
    to_string_from_display_ensures::<std::io::Error>(failure, message)
}

/// The reply to a save, given how the write went: success stays success, and a failure is
/// answered with its text.
pub fn save_file_reply(written: Result<(), std::io::Error>) -> (reply: Result<(), String>)
    ensures
        match written {
            Ok(_) => reply == Ok::<(), String>(()),
            Err(failure) => reply matches Err(message) && is_text_of(&failure, message),
        },
{
    match written {
        Ok(()) => Ok(()),
        Err(failure) => Err(failure.to_string()),
    }
}

/// The reply to a read, given how the read went: the contents go back unchanged, and a
/// failure is answered with its text.
pub fn read_file_reply(read: Result<String, std::io::Error>) -> (reply: Result<String, String>)
    ensures
        match read {
            Ok(contents) => reply matches Ok(text) && text@ == contents@,
            Err(failure) => reply matches Err(message) && is_text_of(&failure, message),
        },
{
    match read {
        Ok(contents) => Ok(contents),
        Err(failure) => Err(failure.to_string()),
    }
}

} // verus!
