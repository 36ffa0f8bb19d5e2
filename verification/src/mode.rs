//! Commit modes and the type-level tags that fix the mode of a handle.
use vstd::prelude::*;

verus! {

/// How work done on a connection becomes permanent.
#[derive(Clone, Copy, Debug, PartialEq, Eq, Structural)]
pub enum CommitMode {
    /// Every statement is committed as soon as it has run.
    AutoCommit,
    /// Statements gather in a transaction until a commit or a rollback.
    Manual,
}

/// A type that stands for one commit mode.
///
/// A handle carries its tag as a type parameter, so the mode is settled when
/// the handle is made and no operation can alter it.
pub trait CommitTag: Sized {
    /// The mode this tag stands for.
    spec fn mode_of() -> CommitMode;

    /// The mode this tag stands for, as a value.
    fn mode() -> (m: CommitMode)
        ensures
            m == Self::mode_of(),
    ;
}

/// Tag of handles whose statements commit by themselves.
#[derive(Clone, Copy, Debug)]
pub struct AutoCommitting;

/// Tag of handles that need an explicit commit or rollback.
#[derive(Clone, Copy, Debug)]
pub struct Transactional;

impl CommitTag for AutoCommitting {
    open spec fn mode_of() -> CommitMode {
        CommitMode::AutoCommit
    }

    fn mode() -> (m: CommitMode) {
        CommitMode::AutoCommit
    }
}

impl CommitTag for Transactional {
    open spec fn mode_of() -> CommitMode {
        CommitMode::Manual
    }

    fn mode() -> (m: CommitMode) {
        CommitMode::Manual
    }
}

} // verus!
