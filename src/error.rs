use vstd::prelude::*;

verus! {

#[verifier::external_type_specification]
#[verifier::external_body]
pub struct ExIgnoreError(ignore::Error);

/// The kinds of filesystem failure that the link operations tell apart.
#[derive(PartialEq, Eq, Structural, Clone, Copy, Debug)]
pub enum IoKind {
    /// The path was already there.
    AlreadyExists,
    /// The path, or one above it, was not there.
    NotFound,
    /// Anything else.
    Other,
}

/// How a filesystem call ended.
#[derive(Debug)]
pub enum IoOutcome {
    /// The call succeeded.
    Done,
    /// The call failed, with the system's description of why.
    Failed { kind: IoKind, reason: String },
}

/// What went wrong, with the paths involved.
#[derive(Debug)]
pub enum Failure {
    /// Building the ignore rules or walking the source tree failed.
    Ignore(ignore::Error),
    /// The directories above a link target could not be created.
    CreateDirs { path: String, reason: String },
    /// The link could not be created.
    Link { source: String, target: String, reason: String },
    /// The link target could not be removed.
    Unlink { target: String, reason: String },
    /// A git command could not be started.
    GitSpawn { reason: String },
    /// A git command exited with a failure status; `command` is the whole
    /// command line.
    GitStatus { command: String },
}

} // verus!
