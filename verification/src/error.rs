//! The one error every failure is turned into before it leaves a manager.
use vstd::prelude::*;
use vstd::string::StringExecFns;
use vstd::std_specs::convert::FromSpecImpl;
use std::sync::PoisonError;
use crate::diagnostic::Diagnostic;
use crate::diagnostic::DiagnosticView;

verus! {

/// `std::sync::PoisonError`, the error of a lock whose holder failed. It is
/// taken as an opaque value: nothing is claimed of what it holds.
#[verifier::external_type_specification]
#[verifier::external_body]
#[verifier::reject_recursive_types(T)]
pub struct ExPoisonError<T>(PoisonError<T>);

/// Where an error came from.
#[derive(Debug)]
pub enum Cause {
    /// The driver refused an operation and said why.
    Driver(Diagnostic),
    /// A lock was left poisoned by a holder that failed while it held it.
    Poisoned,
    /// A condition this crate, or its caller, raised by itself.
    Raised(String),
}

/// The mathematical content of a [`Cause`].
pub enum CauseView {
    Driver(DiagnosticView),
    Poisoned,
    Raised(Seq<char>),
}

impl CauseView {
    /// The text that displays an error of this cause: the rendered record, the
    /// fixed line for a poisoned lock, or the raised message itself.
    pub open spec fn text(self) -> Seq<char> {
        match self {
            CauseView::Driver(d) => d.rendered(),
            CauseView::Poisoned => POISONED_TEXT@,
            CauseView::Raised(m) => m,
        }
    }
}

impl View for Cause {
    type V = CauseView;

    open spec fn view(&self) -> CauseView {
        match self {
            Cause::Driver(d) => CauseView::Driver(d@),
            Cause::Poisoned => CauseView::Poisoned,
            Cause::Raised(m) => CauseView::Raised(m@),
        }
    }
}

/// The text that displays a poisoned lock.
pub const POISONED_TEXT: &'static str = "poisoned lock: another task failed inside";

/// The short description shared by all errors.
pub const DESCRIPTION: &'static str = "Error connecting DB";

/// The error of every operation of this crate. It keeps its cause whole.
#[derive(Debug)]
pub struct ODBCError {
    /// What went wrong.
    pub cause: Cause,
}

impl View for ODBCError {
    type V = CauseView;

    open spec fn view(&self) -> CauseView {
        self.cause@
    }
}

impl Clone for Cause {
    fn clone(&self) -> (copy: Self)
        ensures
            copy == *self,
    {
        match self {
            Cause::Driver(d) => Cause::Driver(d.clone()),
            Cause::Poisoned => Cause::Poisoned,
            Cause::Raised(m) => Cause::Raised(m.clone()),
        }
    }
}

impl Clone for ODBCError {
    fn clone(&self) -> (copy: Self)
        ensures
            copy == *self,
    {
        ODBCError { cause: self.cause.clone() }
    }
}

impl From<Diagnostic> for ODBCError {
    /// Wraps a driver's record. Nothing is printed: a caller that wants the
    /// record logged does so itself.
    fn from(record: Diagnostic) -> (error: ODBCError) {
        ODBCError { cause: Cause::Driver(record) }
    }
}

impl FromSpecImpl<Diagnostic> for ODBCError {
    open spec fn obeys_from_spec() -> bool {
        true
    }

    open spec fn from_spec(record: Diagnostic) -> ODBCError {
        ODBCError { cause: Cause::Driver(record) }
    }
}

impl<G> From<PoisonError<G>> for ODBCError {
    /// Records that a lock was found poisoned. The guard inside is released.
    fn from(poison: PoisonError<G>) -> (error: ODBCError) {
        ODBCError { cause: Cause::Poisoned }
    }
}

impl<G> FromSpecImpl<PoisonError<G>> for ODBCError {
    open spec fn obeys_from_spec() -> bool {
        true
    }

    open spec fn from_spec(poison: PoisonError<G>) -> ODBCError {
        ODBCError { cause: Cause::Poisoned }
    }
}

impl ODBCError {
    /// An error raised with a message of the caller's own.
    pub fn raised(message: &str) -> (error: ODBCError)
        ensures
            error@ == CauseView::Raised(message@),
    {
        ODBCError { cause: Cause::Raised(String::from_str(message)) }
    }

    /// The short description, the same for every error.
    pub fn description(&self) -> (text: &'static str)
        ensures
            text@ == DESCRIPTION@,
    {
        DESCRIPTION
    }

    /// The text that displays this error: that of its cause.
    pub fn message(&self) -> (text: String)
        ensures
            text@ == self@.text(),
    {
        match &self.cause {
            Cause::Driver(record) => record.render(),
            Cause::Poisoned => String::from_str(POISONED_TEXT),
            Cause::Raised(message) => message.clone(),
        }
    }

    /// The driver's record, where the driver was the cause.
    pub fn diagnostic(&self) -> (record: Option<&Diagnostic>)
        ensures
            match self.cause {
                Cause::Driver(d) => record == Some(&d),
                _ => record.is_none(),
            },
    {
        match &self.cause {
            Cause::Driver(record) => Some(record),
            _ => None,
        }
    }
}

} // verus!
