//! The ways in which a stage of a job fails.

use vstd::prelude::*;

verus! {

/// What went wrong.
#[derive(Clone, Copy, PartialEq, Eq, Structural, Debug)]
pub enum ErrorKind {
    /// A tool could not be found or started.
    ToolInvocation,
    /// A stage gave no bytes where bytes were needed.
    EmptyOutput,
    /// A metadata document could not be read.
    MetadataParse,
    /// The loudness report names no mean volume.
    VolumeDetection,
    /// The audio could not be decoded.
    AudioDecode,
    /// Tags or cover could not be written into the audio.
    TagWrite,
    /// The file could not be written.
    Persist,
}

/// A failure: its kind and the message shown to the user.
#[derive(Clone, Debug)]
pub struct JobError {
    pub kind: ErrorKind,
    pub message: String,
}

impl JobError {
    /// A failure of the given kind with the given message.
    pub fn new(kind: ErrorKind, message: &str) -> (r: JobError)
        ensures
            r.kind == kind,
            r.message@ == message@,
    {
        JobError { kind, message: message.to_owned() }
    }

    /// The message shown to the user.
    pub fn to_string(&self) -> (r: String)
        ensures
            r@ == self.message@,
    {
        self.message.clone()
    }
}

} // verus!
