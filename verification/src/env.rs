//! The driver environment all connections share, and how it comes to be.
use vstd::prelude::*;
use vstd::string::StringExecFns;
use crate::diagnostic::Diagnostic;
use crate::error::Cause;
use crate::error::CauseView;
use crate::error::ODBCError;

verus! {

/// The text of the error for an environment that could not be allocated, so
/// that the driver had no record to give.
pub const NO_ENVIRONMENT_TEXT: &'static str = "Unable to create the ODBC environment";

/// The text of the error for an environment nobody has tried to create yet.
pub const UNINITIALIZED_TEXT: &'static str = "The ODBC environment is not initialized";

/// How far the shared environment has come.
#[derive(Clone, Copy, Debug, PartialEq, Eq, Structural)]
pub enum EnvState {
    /// Nobody has tried to create it.
    Uninitialized,
    /// It was created and can open connections.
    Ready,
    /// Creating it failed. It stays failed.
    Failed,
}

enum Slot<E> {
    Uninitialized,
    Ready(E),
    Failed(ODBCError),
}

/// The driver environment, created at most once and then only read.
///
/// `E` is the driver's own environment type. A failed creation is kept: it is
/// not tried again, and every later access reports the same error.
pub struct ODBCEnv<E> {
    slot: Slot<E>,
}

/// The mathematical content of an [`ODBCEnv`].
pub enum EnvView<E> {
    Uninitialized,
    Ready(E),
    Failed(CauseView),
}

/// The error that a failed creation leaves behind: the driver's record where
/// it gave one, a fixed message where it gave none.
pub open spec fn creation_failure(record: Option<Diagnostic>) -> CauseView {
    match record {
        Some(d) => CauseView::Driver(d@),
        None => CauseView::Raised(NO_ENVIRONMENT_TEXT@),
    }
}

impl<E> EnvView<E> {
    /// The stage this environment is in.
    pub open spec fn state(self) -> EnvState {
        match self {
            EnvView::Uninitialized => EnvState::Uninitialized,
            EnvView::Ready(_) => EnvState::Ready,
            EnvView::Failed(_) => EnvState::Failed,
        }
    }

    /// The environment after one attempt to create it has been reported. Only
    /// the first report counts.
    pub open spec fn settled(self, created: Result<E, Option<Diagnostic>>) -> EnvView<E> {
        match self {
            EnvView::Uninitialized => match created {
                Ok(e) => EnvView::Ready(e),
                Err(record) => EnvView::Failed(creation_failure(record)),
            },
            _ => self,
        }
    }

    /// What an access finds: the environment, or the reason there is none.
    pub open spec fn access(self) -> Result<E, CauseView> {
        match self {
            EnvView::Uninitialized => Err(CauseView::Raised(UNINITIALIZED_TEXT@)),
            EnvView::Ready(e) => Ok(e),
            EnvView::Failed(cause) => Err(cause),
        }
    }
}

impl<E> View for ODBCEnv<E> {
    type V = EnvView<E>;

    closed spec fn view(&self) -> EnvView<E> {
        match self.slot {
            Slot::Uninitialized => EnvView::Uninitialized,
            Slot::Ready(e) => EnvView::Ready(e),
            Slot::Failed(error) => EnvView::Failed(error@),
        }
    }
}

impl<E> ODBCEnv<E> {
    /// An environment that nobody has tried to create yet.
    pub fn new() -> (env: Self)
        ensures
            env@ == EnvView::<E>::Uninitialized,
    {
        ODBCEnv { slot: Slot::Uninitialized }
    }

    /// The stage this environment is in.
    pub fn state(&self) -> (state: EnvState)
        ensures
            state == self@.state(),
    {
        match &self.slot {
            Slot::Uninitialized => EnvState::Uninitialized,
            Slot::Ready(_) => EnvState::Ready,
            Slot::Failed(_) => EnvState::Failed,
        }
    }

    /// Takes in what an attempt to create the driver's environment gave.
    ///
    /// The first report decides for good. A later one changes nothing, and
    /// what it brought is released.
    pub fn initialize(&mut self, created: Result<E, Option<Diagnostic>>)
        ensures
            final(self)@ == old(self)@.settled(created),
    {
        if let Slot::Uninitialized = &self.slot {
            self.slot = match created {
                Ok(e) => Slot::Ready(e),
                Err(Some(record)) => Slot::Failed(ODBCError { cause: Cause::Driver(record) }),
                Err(None) => Slot::Failed(ODBCError::raised(NO_ENVIRONMENT_TEXT)),
            };
        }
    }

    /// The driver's environment, or the error that stands in its place.
    pub fn get(&self) -> (found: Result<&E, ODBCError>)
        ensures
            match self@.access() {
                Ok(e) => found == Ok::<&E, ODBCError>(&e),
                Err(cause) => found.is_err() && found->Err_0@ == cause,
            },
    {
        match &self.slot {
            Slot::Uninitialized => Err(ODBCError::raised(UNINITIALIZED_TEXT)),
            Slot::Ready(e) => Ok(e),
            Slot::Failed(error) => Err(error.clone()),
        }
    }
}

/// Once an attempt to create the environment has been reported, no later
/// report changes it: it is created at most once, and a failure is permanent.
pub proof fn first_report_decides<E>(
    env: EnvView<E>,
    first: Result<E, Option<Diagnostic>>,
    later: Result<E, Option<Diagnostic>>,
)
    ensures
        env.settled(first).state() != EnvState::Uninitialized,
        env.settled(first).settled(later) == env.settled(first),
{
}

/// An environment nobody had tried to create is ready exactly if the first
/// attempt succeeded; it then gives out what that attempt created. If the
/// attempt failed, every access reports that failure.
pub proof fn first_report_is_kept<E>(first: Result<E, Option<Diagnostic>>)
    ensures
        match first {
            Ok(e) => EnvView::<E>::Uninitialized.settled(first).access() == Ok::<E, CauseView>(e),
            Err(record) => EnvView::<E>::Uninitialized.settled(first).access() == Err::<
                E,
                CauseView,
            >(creation_failure(record)),
        },
{
}

} // verus!
