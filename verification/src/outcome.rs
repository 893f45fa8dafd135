//! Errors, log records and the terminal result of the service.
//!
//! The library never looks inside the cause of an error: a cause is a value
//! of the caller's type `E` that is carried from the event that reports it
//! to the record or the failure that names it.

use vstd::prelude::*;
use crate::endpoint::{Endpoint, StartupError};

verus! {

/// The two top-level units of the service.
#[derive(Clone, Copy, Debug, PartialEq, Eq, Structural)]
pub enum Unit {
    Monitor,
    Acceptor,
}

/// How far an error reaches.
#[derive(Clone, Copy, Debug, PartialEq, Eq, Structural)]
pub enum Reach {
    /// The error ends nothing but the attempt or the session that met it.
    Contained,
    /// The error ends the whole process.
    Process,
}

/// The kinds of error that the service meets.
#[derive(Clone, Copy, Debug, PartialEq, Eq, Structural)]
pub enum ErrorClass {
    /// A startup parameter is no valid address.
    StartupConfig,
    /// The listening socket could not be set up.
    Bind,
    /// The monitor could not open a probe connection.
    ProbeConnect,
    /// The acceptor could not connect to the target for an accepted connection.
    TargetConnect,
    /// An accept call on the listening socket failed.
    Accept,
    /// A copy between the two sides of a session failed.
    RelayIo,
}

impl ErrorClass {
    /// An error either stays where it happened or ends the process: there is
    /// no tier in between, and nothing is retried after a delay.
    pub open spec fn spec_reach(self) -> Reach {
        match self {
            ErrorClass::Accept | ErrorClass::RelayIo => Reach::Contained,
            _ => Reach::Process,
        }
    }

    /// How far an error of this class reaches.
    #[verifier::when_used_as_spec(spec_reach)]
    pub fn reach(self) -> (r: Reach)
        ensures
            r == self.spec_reach(),
    {
        match self {
            ErrorClass::Accept => Reach::Contained,
            ErrorClass::RelayIo => Reach::Contained,
            ErrorClass::StartupConfig => Reach::Process,
            ErrorClass::Bind => Reach::Process,
            ErrorClass::ProbeConnect => Reach::Process,
            ErrorClass::TargetConnect => Reach::Process,
        }
    }

    pub open spec fn spec_is_fatal(self) -> bool {
        self.spec_reach() == Reach::Process
    }

    /// Whether an error of this class ends the process.
    #[verifier::when_used_as_spec(spec_is_fatal)]
    pub fn is_fatal(self) -> (b: bool)
        ensures
            b == self.spec_is_fatal(),
    {
        self.reach() == Reach::Process
    }
}

/// The operations whose failure a running unit cannot survive.
#[derive(Clone, Copy, Debug, PartialEq, Eq, Structural)]
pub enum Fatal {
    /// Opening a probe connection to the target.
    ProbeConnect,
    /// Setting up the listening socket.
    Bind,
    /// Connecting to the target for an accepted connection.
    TargetConnect,
}

impl Fatal {
    pub open spec fn spec_origin(self) -> Unit {
        match self {
            Fatal::ProbeConnect => Unit::Monitor,
            Fatal::Bind | Fatal::TargetConnect => Unit::Acceptor,
        }
    }

    /// The unit that performs the operation.
    #[verifier::when_used_as_spec(spec_origin)]
    pub fn origin(self) -> (unit: Unit)
        ensures
            unit == self.spec_origin(),
    {
        match self {
            Fatal::ProbeConnect => Unit::Monitor,
            Fatal::Bind => Unit::Acceptor,
            Fatal::TargetConnect => Unit::Acceptor,
        }
    }

    pub open spec fn spec_class(self) -> ErrorClass {
        match self {
            Fatal::ProbeConnect => ErrorClass::ProbeConnect,
            Fatal::Bind => ErrorClass::Bind,
            Fatal::TargetConnect => ErrorClass::TargetConnect,
        }
    }

    /// The class of the error.
    #[verifier::when_used_as_spec(spec_class)]
    pub fn class(self) -> (class: ErrorClass)
        ensures
            class == self.spec_class(),
            class.is_fatal(),
    {
        match self {
            Fatal::ProbeConnect => ErrorClass::ProbeConnect,
            Fatal::Bind => ErrorClass::Bind,
            Fatal::TargetConnect => ErrorClass::TargetConnect,
        }
    }
}

/// An error that ends the service: the operation that failed, the endpoint
/// that it was made on, and the underlying cause.
#[derive(Debug, PartialEq, Eq)]
pub struct Failure<E> {
    pub kind: Fatal,
    pub endpoint: Endpoint,
    pub cause: E,
}

impl<E> Failure<E> {
    /// The unit in which the error arose.
    pub fn origin(&self) -> (unit: Unit)
        ensures
            unit == self.kind.origin(),
    {
        self.kind.origin()
    }
}

/// Something that the service reports without ending.
#[derive(Debug, PartialEq, Eq)]
pub enum Record<E> {
    /// A connection was accepted from this address.
    Accepted(Endpoint),
    /// An accept call failed; the acceptor goes on.
    AcceptFailed(E),
    /// A session's copy failed; that session ends.
    RelayFailed(E),
}

impl<E> Record<E> {
    pub open spec fn spec_class(&self) -> Option<ErrorClass> {
        match self {
            Record::Accepted(_) => None,
            Record::AcceptFailed(_) => Some(ErrorClass::Accept),
            Record::RelayFailed(_) => Some(ErrorClass::RelayIo),
        }
    }

    /// The class of the error that the record reports, if it reports one.
    /// No record reports an error that ends the process.
    #[verifier::when_used_as_spec(spec_class)]
    pub fn class(&self) -> (class: Option<ErrorClass>)
        ensures
            class == self.spec_class(),
            class matches Some(c) ==> !c.is_fatal(),
    {
        match self {
            Record::Accepted(_) => None,
            Record::AcceptFailed(_) => Some(ErrorClass::Accept),
            Record::RelayFailed(_) => Some(ErrorClass::RelayIo),
        }
    }
}

/// The terminal result of the whole process.
#[derive(Debug, PartialEq, Eq)]
pub enum ServiceOutcome<E> {
    /// The service was never started: a startup parameter was invalid.
    Rejected(StartupError<E>),
    /// A unit returned without an error. The units run until they fail, so a
    /// running service never gets here.
    Finished,
    /// A unit failed, and the process ends with its error.
    Failed(Failure<E>),
}

impl<E> ServiceOutcome<E> {
    /// The outcome of the service, from the result of the unit that finished
    /// first: the units race, and the first result is the service's.
    pub fn of_first(result: Result<(), Failure<E>>) -> (outcome: ServiceOutcome<E>)
        ensures
            outcome == match result {
                Ok(_) => ServiceOutcome::Finished,
                Err(failure) => ServiceOutcome::Failed(failure),
            },
    {
        match result {
            Ok(_) => ServiceOutcome::Finished,
            Err(failure) => ServiceOutcome::Failed(failure),
        }
    }

    pub open spec fn spec_exit_status(&self) -> u8 {
        match self {
            ServiceOutcome::Finished => 0,
            _ => 1,
        }
    }

    /// The exit status of the process: zero only if the service was started
    /// and no unit failed.
    #[verifier::when_used_as_spec(spec_exit_status)]
    pub fn exit_status(&self) -> (status: u8)
        ensures
            status == self.spec_exit_status(),
            (status == 0) == (self is Finished),
    {
        match self {
            ServiceOutcome::Finished => 0,
            ServiceOutcome::Rejected(_) => 1,
            ServiceOutcome::Failed(_) => 1,
        }
    }

    pub open spec fn spec_class(&self) -> Option<ErrorClass> {
        match self {
            ServiceOutcome::Finished => None,
            ServiceOutcome::Rejected(_) => Some(ErrorClass::StartupConfig),
            ServiceOutcome::Failed(failure) => Some(failure.kind.class()),
        }
    }

    /// The class of the error that ended the process, if one did. Only an
    /// error that reaches the whole process can end it.
    #[verifier::when_used_as_spec(spec_class)]
    pub fn class(&self) -> (class: Option<ErrorClass>)
        ensures
            class == self.spec_class(),
            class matches Some(c) ==> c.is_fatal(),
            class is None == (self is Finished),
    {
        match self {
            ServiceOutcome::Finished => None,
            ServiceOutcome::Rejected(_) => Some(ErrorClass::StartupConfig),
            ServiceOutcome::Failed(failure) => Some(failure.kind.class()),
        }
    }
}

} // verus!
