//! The two connection managers: one for auto-committing handles, one for
//! handles that run transactions.
//!
//! A manager decides; it does not reach the driver. Its caller opens the
//! connection named by [`ODBCConnectionManager::connection_string`], reports
//! what the driver answered, and gets back the handle or the error the pool is
//! to see.
use vstd::prelude::*;
use vstd::string::StringExecFns;
use crate::connection::ODBCConnection;
use crate::diagnostic::Diagnostic;
use crate::error::Cause;
use crate::error::CauseView;
use crate::error::ODBCError;
use crate::mode::AutoCommitting;
use crate::mode::CommitMode;
use crate::mode::Transactional;

verus! {

/// The statement that probes whether a connection still answers.
pub const PROBE_QUERY: &'static str = "SELECT 1";

/// The message of the error for a connection that would not leave auto-commit.
pub const NO_TRANSACTIONS_TEXT: &'static str = "Unable to use transactions";

/// What came of an attempt to open a connection.
pub enum OpenOutcome<C> {
    /// The driver opened this connection.
    Connected(C),
    /// The driver refused the connection string, the credentials or the network.
    Rejected(Diagnostic),
    /// There was no environment to open a connection in.
    Unavailable(ODBCError),
}

impl<C> OpenOutcome<C> {
    /// The connection that was opened, or the cause of the error that reports
    /// why none was.
    pub open spec fn verdict(self) -> Result<C, CauseView> {
        match self {
            OpenOutcome::Connected(c) => Ok(c),
            OpenOutcome::Rejected(record) => Err(CauseView::Driver(record@)),
            OpenOutcome::Unavailable(error) => Err(error@),
        }
    }

    /// Turns the outcome into the connection or the error for the pool.
    pub fn settle(self) -> (settled: Result<C, ODBCError>)
        ensures
            match self.verdict() {
                Ok(c) => settled == Ok::<C, ODBCError>(c),
                Err(cause) => settled.is_err() && settled->Err_0@ == cause,
            },
    {
        match self {
            OpenOutcome::Connected(c) => Ok(c),
            OpenOutcome::Rejected(record) => Err(ODBCError { cause: Cause::Driver(record) }),
            OpenOutcome::Unavailable(error) => Err(error),
        }
    }
}

/// What came of the probe statement: `Ok` where the connection answered, the
/// driver's record where allocating or running the statement failed.
pub open spec fn probe_verdict(probe: Result<(), Diagnostic>) -> Result<(), CauseView> {
    match probe {
        Ok(()) => Ok(()),
        Err(record) => Err(CauseView::Driver(record@)),
    }
}

/// Makes and checks auto-committing connections to one data source.
#[derive(Debug)]
pub struct ODBCConnectionManager {
    connection_string: String,
}

impl View for ODBCConnectionManager {
    type V = Seq<char>;

    /// The connection string this manager was made with.
    closed spec fn view(&self) -> Seq<char> {
        self.connection_string@
    }
}

impl ODBCConnectionManager {
    /// Creates a new `ODBCConnectionManager` for a connection string. The
    /// string is handed to the driver as it is.
    pub fn new(connection_string: &str) -> (manager: ODBCConnectionManager)
        ensures
            manager@ == connection_string@,
    {
        ODBCConnectionManager { connection_string: String::from_str(connection_string) }
    }

    /// The connection string to open connections with.
    pub fn connection_string(&self) -> (s: &str)
        ensures
            s@ == self@,
    {
        self.connection_string.as_str()
    }

    /// Decides what the pool gets for an attempt to open a connection: a
    /// handle tagged auto-commit around the connection the driver opened, or
    /// the error that keeps the driver's record.
    pub fn connect<C>(&self, outcome: OpenOutcome<C>) -> (made: Result<
        ODBCConnection<C, AutoCommitting>,
        ODBCError,
    >)
        ensures
            match outcome.verdict() {
                Ok(c) => made.is_ok() && made->Ok_0.native() == c
                    && made->Ok_0.mode_spec() == CommitMode::AutoCommit,
                Err(cause) => made.is_err() && made->Err_0@ == cause,
            },
    {
        match outcome.settle() {
            Ok(c) => Ok(ODBCConnection::new(c)),
            Err(error) => Err(error),
        }
    }

    /// The statement to run on a connection that is to be checked.
    pub fn probe_query(&self) -> (query: &'static str)
        ensures
            query@ == PROBE_QUERY@,
    {
        PROBE_QUERY
    }

    /// Decides whether a connection is still good from what the probe
    /// statement gave. The handle is left as it was.
    pub fn is_valid<C>(
        &self,
        conn: &mut ODBCConnection<C, AutoCommitting>,
        probe: Result<(), Diagnostic>,
    ) -> (checked: Result<(), ODBCError>)
        ensures
            *final(conn) == *old(conn),
            match probe_verdict(probe) {
                Ok(()) => checked.is_ok(),
                Err(cause) => checked.is_err() && checked->Err_0@ == cause,
            },
    {
        match probe {
            Ok(()) => Ok(()),
            Err(record) => Err(ODBCError { cause: Cause::Driver(record) }),
        }
    }

    /// Whether a connection is known to be broken, without asking the driver.
    /// Nothing detects that yet, so the answer is always no.
    pub fn has_broken<C>(&self, conn: &mut ODBCConnection<C, AutoCommitting>) -> (broken: bool)
        ensures
            !broken,
            *final(conn) == *old(conn),
    {
        false
    }
}

/// What has happened while a transactional connection is being made.
pub enum TxEvent<On, Off> {
    /// The attempt to open a connection has ended.
    Opened(OpenOutcome<On>),
    /// The attempt to switch auto-commit off has ended: with the connection in
    /// manual mode, or with the connection still auto-committing.
    Switched(Result<Off, On>),
}

/// What is to happen next while a transactional connection is being made.
pub enum TxStep<On, Off> {
    /// Switch auto-commit off on this connection and report how that went.
    DisableAutocommit(On),
    /// Connecting is over: this is what the pool gets.
    Done(Result<ODBCConnection<Off, Transactional>, ODBCError>),
}

/// What follows an event: after a connection was opened, the request to
/// switch it; after the switch, the connection in manual mode; in every other
/// case the cause of the error that ends the attempt.
pub enum TxVerdict<On, Off> {
    Switch(On),
    Handle(Off),
    Failure(CauseView),
}

impl<On, Off> TxEvent<On, Off> {
    /// What follows this event.
    pub open spec fn verdict(self) -> TxVerdict<On, Off> {
        match self {
            TxEvent::Opened(outcome) => match outcome.verdict() {
                Ok(c) => TxVerdict::Switch(c),
                Err(cause) => TxVerdict::Failure(cause),
            },
            TxEvent::Switched(Ok(c)) => TxVerdict::Handle(c),
            TxEvent::Switched(Err(_)) => TxVerdict::Failure(
                CauseView::Raised(NO_TRANSACTIONS_TEXT@),
            ),
        }
    }
}

impl<On, Off> TxStep<On, Off> {
    /// Whether this step is the one that a verdict calls for.
    pub open spec fn follows(self, verdict: TxVerdict<On, Off>) -> bool {
        match verdict {
            TxVerdict::Switch(c) => self == TxStep::<On, Off>::DisableAutocommit(c),
            TxVerdict::Handle(c) => self is Done && self->Done_0.is_ok()
                && self->Done_0->Ok_0.native() == c
                && self->Done_0->Ok_0.mode_spec() == CommitMode::Manual,
            TxVerdict::Failure(cause) => self is Done && self->Done_0.is_err()
                && self->Done_0->Err_0@ == cause,
        }
    }
}

/// Makes and checks connections that run transactions, to one data source.
#[derive(Debug)]
pub struct ODBCConnectionManagerTx {
    connection_string: String,
}

impl View for ODBCConnectionManagerTx {
    type V = Seq<char>;

    /// The connection string this manager was made with.
    closed spec fn view(&self) -> Seq<char> {
        self.connection_string@
    }
}

impl ODBCConnectionManagerTx {
    /// Creates a new `ODBCConnectionManagerTx` for a connection string. The
    /// string is handed to the driver as it is.
    pub fn new(connection_string: &str) -> (manager: ODBCConnectionManagerTx)
        ensures
            manager@ == connection_string@,
    {
        ODBCConnectionManagerTx { connection_string: String::from_str(connection_string) }
    }

    /// The connection string to open connections with.
    pub fn connection_string(&self) -> (s: &str)
        ensures
            s@ == self@,
    {
        self.connection_string.as_str()
    }

    /// Decides the next step of making a transactional connection.
    ///
    /// A connection that was opened is sent on to have auto-commit switched
    /// off. Only a connection that comes back in manual mode becomes a handle.
    /// One that would not leave auto-commit is released and the attempt fails,
    /// as it does when no connection could be opened.
    pub fn connect<On, Off>(&self, event: TxEvent<On, Off>) -> (step: TxStep<On, Off>)
        ensures
            step.follows(event.verdict()),
    {
        match event {
            TxEvent::Opened(outcome) => match outcome.settle() {
                Ok(c) => TxStep::DisableAutocommit(c),
                Err(error) => TxStep::Done(Err(error)),
            },
            TxEvent::Switched(Ok(c)) => TxStep::Done(Ok(ODBCConnection::new(c))),
            TxEvent::Switched(Err(_)) => TxStep::Done(
                Err(ODBCError::raised(NO_TRANSACTIONS_TEXT)),
            ),
        }
    }

    /// Checks a connection. Nothing is probed yet: every handle passes, and
    /// is left as it was.
    pub fn is_valid<C>(&self, conn: &mut ODBCConnection<C, Transactional>) -> (checked: Result<
        (),
        ODBCError,
    >)
        ensures
            checked.is_ok(),
            *final(conn) == *old(conn),
    {
        Ok(())
    }

    /// Whether a connection is known to be broken, without asking the driver.
    /// Nothing detects that yet, so the answer is always no.
    pub fn has_broken<C>(&self, conn: &mut ODBCConnection<C, Transactional>) -> (broken: bool)
        ensures
            !broken,
            *final(conn) == *old(conn),
    {
        false
    }
}

/// A connection string that the driver rejects gives no handle, from either
/// manager: the attempt ends with an error whose cause is the driver's record,
/// and whose text is the record's line, which closes with the driver's message.
pub proof fn rejection_keeps_the_record<On, Off>(record: Diagnostic)
    ensures
        OpenOutcome::<On>::Rejected(record).verdict() == Err::<On, CauseView>(
            CauseView::Driver(record@),
        ),
        TxEvent::<On, Off>::Opened(OpenOutcome::Rejected(record)).verdict()
            == TxVerdict::<On, Off>::Failure(CauseView::Driver(record@)),
        CauseView::Driver(record@).text() == record@.rendered(),
        record@.message.is_suffix_of(record@.rendered()),
{
    crate::diagnostic::rendered_closes_with_message(record@);
}

/// A connection that would not leave auto-commit never becomes a handle: the
/// attempt is over, with an error.
pub proof fn refused_switch_gives_no_handle<On, Off>(still_on: On, step: TxStep<On, Off>)
    requires
        step.follows(TxEvent::<On, Off>::Switched(Err(still_on)).verdict()),
    ensures
        step is Done,
        step->Done_0.is_err(),
        step->Done_0->Err_0@ == CauseView::Raised(NO_TRANSACTIONS_TEXT@),
{
}

/// Every transactional handle holds a connection that came back from the
/// switch in manual mode: no other event ends in a handle.
pub proof fn handle_only_after_switch<On, Off>(event: TxEvent<On, Off>, step: TxStep<On, Off>)
    requires
        step.follows(event.verdict()),
        step is Done,
        step->Done_0.is_ok(),
    ensures
        event is Switched,
        event->Switched_0.is_ok(),
        step->Done_0->Ok_0.native() == event->Switched_0->Ok_0,
        step->Done_0->Ok_0.mode_spec() == CommitMode::Manual,
{
}

/// A connection string that the driver accepts leads to a handle in two
/// steps: the opened connection is sent to the switch, and what comes back in
/// manual mode is the handle's connection.
pub proof fn accepted_connection_becomes_handle<On, Off>(
    opened: On,
    switched: Off,
    first: TxStep<On, Off>,
    second: TxStep<On, Off>,
)
    requires
        first.follows(TxEvent::<On, Off>::Opened(OpenOutcome::Connected(opened)).verdict()),
        second.follows(TxEvent::<On, Off>::Switched(Ok(switched)).verdict()),
    ensures
        first == TxStep::<On, Off>::DisableAutocommit(opened),
        second is Done,
        second->Done_0.is_ok(),
        second->Done_0->Ok_0.native() == switched,
        second->Done_0->Ok_0.mode_spec() == CommitMode::Manual,
{
}

} // verus!
