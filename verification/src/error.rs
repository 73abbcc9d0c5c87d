//! The error taxonomy of the lifecycle manager.

use vstd::prelude::*;

verus! {

/// Every way an operation of the manager can fail.
#[derive(Clone, Copy, Debug, PartialEq, Eq, Structural)]
pub enum ErrorKind {
    /// The server is unreachable or refused the credentials.
    ConnectionError,
    /// The named database does not exist (any more) on the server.
    DatabaseNotFound,
    /// A transaction was requested from a session that is closed.
    SessionClosed,
    /// A write was attempted inside a read transaction.
    IllegalWrite,
    /// The transaction was already committed or closed.
    TransactionClosed,
    /// The server could not parse the query text.
    QuerySyntaxError,
    /// The server parsed the query but could not run it.
    QueryExecutionError,
    /// The server refused the commit: a conflict or a failure on its side.
    CommitError,
    /// The channel reported that its time limit passed.
    Timeout,
}

/// The groups into which the errors fall, by what the caller can do about them.
#[derive(Clone, Copy, Debug, PartialEq, Eq, Structural)]
pub enum ErrorClass {
    /// Fatal unless the caller sets the connection up again.
    Connection,
    /// A mistake in the order of calls; corrected locally by the caller.
    CallerLogic,
    /// The server rejected the query text; corrected by changing the query.
    QueryRejected,
    /// The commit failed; never retried, handed to the caller.
    Commit,
    /// The time limit of the channel, which the caller configures.
    Timeout,
}

impl ErrorKind {
    /// The class of each error.
    pub open spec fn class_of(self) -> ErrorClass {
        match self {
            ErrorKind::ConnectionError => ErrorClass::Connection,
            ErrorKind::DatabaseNotFound => ErrorClass::CallerLogic,
            ErrorKind::SessionClosed => ErrorClass::CallerLogic,
            ErrorKind::IllegalWrite => ErrorClass::CallerLogic,
            ErrorKind::TransactionClosed => ErrorClass::CallerLogic,
            ErrorKind::QuerySyntaxError => ErrorClass::QueryRejected,
            ErrorKind::QueryExecutionError => ErrorClass::QueryRejected,
            ErrorKind::CommitError => ErrorClass::Commit,
            ErrorKind::Timeout => ErrorClass::Timeout,
        }
    }

    /// An error is recoverable on the spot when the caller can mend it alone:
    /// by calling in the right order, or by sending another query.
    pub open spec fn locally_recoverable(self) -> bool {
        self.class_of() == ErrorClass::CallerLogic || self.class_of() == ErrorClass::QueryRejected
    }

    /// The name of the error as it is written in messages.
    pub open spec fn name_of(self) -> Seq<char> {
        match self {
            ErrorKind::ConnectionError => "ConnectionError"@,
            ErrorKind::DatabaseNotFound => "DatabaseNotFound"@,
            ErrorKind::SessionClosed => "SessionClosed"@,
            ErrorKind::IllegalWrite => "IllegalWrite"@,
            ErrorKind::TransactionClosed => "TransactionClosed"@,
            ErrorKind::QuerySyntaxError => "QuerySyntaxError"@,
            ErrorKind::QueryExecutionError => "QueryExecutionError"@,
            ErrorKind::CommitError => "CommitError"@,
            ErrorKind::Timeout => "Timeout"@,
        }
    }

    pub fn class(&self) -> (r: ErrorClass)
        ensures
            r == self.class_of(),
    {
        match self {
            ErrorKind::ConnectionError => ErrorClass::Connection,
            ErrorKind::DatabaseNotFound
            | ErrorKind::SessionClosed
            | ErrorKind::IllegalWrite
            | ErrorKind::TransactionClosed => ErrorClass::CallerLogic,
            ErrorKind::QuerySyntaxError | ErrorKind::QueryExecutionError => ErrorClass::QueryRejected,
            ErrorKind::CommitError => ErrorClass::Commit,
            ErrorKind::Timeout => ErrorClass::Timeout,
        }
    }

    /// Only a lost connection ends the process, and only if the caller does
    /// not connect again.
    pub fn is_fatal(&self) -> (r: bool)
        ensures
            r == (self.class_of() == ErrorClass::Connection),
            r == (*self == ErrorKind::ConnectionError),
    {
        match self {
            ErrorKind::ConnectionError => true,
            _ => false,
        }
    }

    pub fn is_caller_logic(&self) -> (r: bool)
        ensures
            r == (self.class_of() == ErrorClass::CallerLogic),
    {
        match self.class() {
            ErrorClass::CallerLogic => true,
            _ => false,
        }
    }

    pub fn is_locally_recoverable(&self) -> (r: bool)
        ensures
            r == self.locally_recoverable(),
    {
        match self.class() {
            ErrorClass::CallerLogic | ErrorClass::QueryRejected => true,
            _ => false,
        }
    }

    pub fn name(&self) -> (r: &'static str)
        ensures
            r@ == self.name_of(),
    {
        match self {
            ErrorKind::ConnectionError => "ConnectionError",
            ErrorKind::DatabaseNotFound => "DatabaseNotFound",
            ErrorKind::SessionClosed => "SessionClosed",
            ErrorKind::IllegalWrite => "IllegalWrite",
            ErrorKind::TransactionClosed => "TransactionClosed",
            ErrorKind::QuerySyntaxError => "QuerySyntaxError",
            ErrorKind::QueryExecutionError => "QueryExecutionError",
            ErrorKind::CommitError => "CommitError",
            ErrorKind::Timeout => "Timeout",
        }
    }
}

} // verus!
