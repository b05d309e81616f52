//! From what reading a file gave to its text.

use vstd::prelude::*;
use vstd::utf8::{decode_utf8, valid_utf8};
use crate::failure::{failure, failure_about, outcome, ErrorKind, Failure, FailureModel};

verus! {

/// What an attempt to read a whole file gave.
#[derive(Clone, Debug, PartialEq, Eq)]
pub enum ReadOutcome {
    /// The file could not be opened.
    NotOpened,
    /// The file was opened and reading it failed.
    NotRead,
    /// The bytes of the file.
    Contents(Vec<u8>),
}

/// The message for a file that cannot be opened.
pub open spec fn unable_to_open_message(path: Seq<char>) -> Seq<char> {
    "Unable to open "@ + path
}

/// The message for a file that cannot be read as text.
pub open spec fn unable_to_read_message(path: Seq<char>) -> Seq<char> {
    "Unable to read "@ + path
}

/// The text of the file at `path`, given what reading it gave: what its
/// bytes decode to where they are valid UTF-8, and otherwise a failure of the
/// given kind that names the path.
pub open spec fn text_read(path: Seq<char>, read: ReadOutcome, kind: ErrorKind) -> Result<
    Seq<char>,
    FailureModel,
> {
    match read {
        ReadOutcome::NotOpened => Err(failure(kind, unable_to_open_message(path))),
        ReadOutcome::NotRead => Err(failure(kind, unable_to_read_message(path))),
        ReadOutcome::Contents(bytes) => if valid_utf8(bytes@) {
            Ok(decode_utf8(bytes@))
        } else {
            Err(failure(kind, unable_to_read_message(path)))
        },
    }
}

/// Decodes bytes with `String::from_utf8`, which gives the string that the
/// bytes encode where they are valid UTF-8, and fails where they are not.
#[verifier::external_body]
pub(crate) fn string_from_utf8(bytes: Vec<u8>) -> (r: Option<String>)
    ensures
        match r {
            Some(text) => valid_utf8(bytes@) && text@ == decode_utf8(bytes@),
            None => !valid_utf8(bytes@),
        },
{
    match String::from_utf8(bytes) {
        Ok(text) => Some(text),
        Err(_) => None,
    }
}

/// The text of the file at `path`, given what reading it gave. A file that
/// cannot be opened, cannot be read, or does not hold valid UTF-8 is a
/// failure of the given kind.
pub fn read_text(path: &str, read: ReadOutcome, kind: ErrorKind) -> (r: Result<String, Failure>)
    ensures
        outcome(r) == text_read(path@, read, kind),
{
    match read {
        ReadOutcome::NotOpened => Err(failure_about(kind, "Unable to open ", path)),
        ReadOutcome::NotRead => Err(failure_about(kind, "Unable to read ", path)),
        ReadOutcome::Contents(bytes) => match string_from_utf8(bytes) {
            Some(text) => Ok(text),
            None => Err(failure_about(kind, "Unable to read ", path)),
        },
    }
}

} // verus!
