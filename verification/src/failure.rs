//! Failures: every fatal condition has a kind and a message that names the
//! failing operation.

use vstd::prelude::*;

verus! {

/// The ways in which a run can end in failure.
#[derive(Clone, Copy, Debug, PartialEq, Eq, Structural)]
pub enum ErrorKind {
    /// The manifest is unreadable, unparseable or holds a value of the wrong shape.
    Configuration,
    /// The build tool ended with a status other than zero.
    Build,
    /// The build-output directory is missing, or no artifact can be chosen in it.
    Discovery,
    /// The prelude or the artifact cannot be read as text.
    Io,
    /// An external process could not be started, fed or awaited.
    Process,
}

/// A fatal condition: its kind, and a message naming the failing operation.
#[derive(Clone, Debug, PartialEq, Eq)]
pub struct Failure {
    pub kind: ErrorKind,
    pub message: String,
}

/// What a [`Failure`] stands for.
pub struct FailureModel {
    pub kind: ErrorKind,
    pub message: Seq<char>,
}

impl View for Failure {
    type V = FailureModel;

    open spec fn view(&self) -> FailureModel {
        FailureModel { kind: self.kind, message: self.message@ }
    }
}

impl Failure {
    /// The failure of kind `kind` that carries `message`.
    pub fn new(kind: ErrorKind, message: String) -> (f: Failure)
        ensures
            f@ == failure(kind, message@),
    {
        Failure { kind, message }
    }

    /// The kind of this failure.
    pub fn kind(&self) -> (k: ErrorKind)
        ensures
            k == self@.kind,
    {
        self.kind
    }

    /// The message of this failure.
    pub fn message(&self) -> (m: String)
        ensures
            m@ == self@.message,
    {
        self.message.clone()
    }
}

/// The failure of kind `kind` that carries `message`.
pub open spec fn failure(kind: ErrorKind, message: Seq<char>) -> FailureModel {
    FailureModel { kind, message }
}

/// What a result stands for: the model of its value, or of its failure.
pub open spec fn outcome<T: View>(r: Result<T, Failure>) -> Result<T::V, FailureModel> {
    match r {
        Ok(value) => Ok(value@),
        Err(f) => Err(f@),
    }
}

/// The failure of kind `kind` whose message is `prefix` followed by `subject`.
pub fn failure_about(kind: ErrorKind, prefix: &str, subject: &str) -> (f: Failure)
    ensures
        f@ == failure(kind, prefix@ + subject@),
{
    let mut message = prefix.to_owned();
    message.append(subject);
    Failure::new(kind, message)
}

} // verus!
