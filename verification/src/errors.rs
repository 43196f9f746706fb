//! Error taxonomy of the freeze/validate pipeline.

use vstd::prelude::*;

verus! {

/// Every way an operation of the pipeline can fail.
///
/// - `ToolNotFound`: the external package manager (or container engine)
///   could not be located.
/// - `MalformedSpec`: a dependency document lacks a top-level mapping, a
///   `name` field, or a `dependencies` sequence.
/// - `NoSigil`: a lockfile contains no sigil marker line.
/// - `UnsupportedPlatformPair`: no freeze procedure exists for the requested
///   execution/target platform combination; carries both platform names.
/// - `ExternalCommandFailed`: a spawned external process exited non-zero.
/// - `InvalidLock`: a resolved document failed superset validation.
/// - `HashMismatch`: an embedded lockfile hash differs from the spec's
///   current content hash; carries the expected and the found hash.
#[derive(Debug, Clone, PartialEq, Eq)]
pub enum LockError {
    ToolNotFound,
    MalformedSpec,
    NoSigil,
    UnsupportedPlatformPair { execution: String, target: String },
    ExternalCommandFailed,
    InvalidLock,
    HashMismatch { expected: String, found: String },
}

} // verus!
