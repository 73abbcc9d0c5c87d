//! What the server said to a request. The caller makes the request and
//! hands the manager the reply as one of these values.

use crate::answer::{Row, Value};
use crate::error::ErrorKind;
use crate::query::{QueryKind, ResponseShape};
use vstd::prelude::*;

verus! {

/// The reply to the attempt to connect.
#[derive(Clone, Copy, Debug, PartialEq, Eq, Structural)]
pub enum ConnectReply {
    Connected,
    /// The server does not know the user, or the password is wrong.
    AuthenticationFailed,
    /// No server answered at any of the addresses.
    Unreachable,
    /// The channel gave up waiting.
    TimedOut,
}

/// The reply to the request for a session.
#[derive(Clone, Copy, Debug, PartialEq, Eq, Structural)]
pub enum SessionReply {
    Opened,
    /// The database of the handle is not there any more.
    DatabaseNotFound,
    /// The channel is down.
    Unreachable,
    /// The channel gave up waiting.
    TimedOut,
}

/// The reply to a query: its results, or why there are none.
#[derive(Clone, Debug, PartialEq, Eq)]
pub enum QueryReply {
    Done,
    Rows(Vec<Row>),
    Documents(Vec<String>),
    Scalar(Option<Value>),
    /// The server could not parse the query.
    SyntaxError,
    /// The server could not run the query.
    ExecutionError,
    /// The channel is down.
    Unreachable,
    /// The channel gave up waiting.
    TimedOut,
}

/// The reply to a commit.
#[derive(Clone, Copy, Debug, PartialEq, Eq, Structural)]
pub enum CommitReply {
    /// Every write of the transaction was applied.
    Committed,
    /// The server applied none of them: a conflict, or a failure of its own.
    Rejected,
    /// The channel went down: whether the writes were applied is not known.
    Unreachable,
    /// The channel gave up waiting: whether the writes were applied is not known.
    TimedOut,
}

impl ConnectReply {
    pub open spec fn failure(self) -> Option<ErrorKind> {
        match self {
            ConnectReply::Connected => None,
            ConnectReply::AuthenticationFailed => Some(ErrorKind::ConnectionError),
            ConnectReply::Unreachable => Some(ErrorKind::ConnectionError),
            ConnectReply::TimedOut => Some(ErrorKind::Timeout),
        }
    }

    pub fn error(&self) -> (r: Option<ErrorKind>)
        ensures
            r == self.failure(),
    {
        match self {
            ConnectReply::Connected => None,
            ConnectReply::AuthenticationFailed | ConnectReply::Unreachable => Some(ErrorKind::ConnectionError),
            ConnectReply::TimedOut => Some(ErrorKind::Timeout),
        }
    }
}

impl SessionReply {
    pub open spec fn failure(self) -> Option<ErrorKind> {
        match self {
            SessionReply::Opened => None,
            SessionReply::DatabaseNotFound => Some(ErrorKind::DatabaseNotFound),
            SessionReply::Unreachable => Some(ErrorKind::ConnectionError),
            SessionReply::TimedOut => Some(ErrorKind::Timeout),
        }
    }

    pub fn error(&self) -> (r: Option<ErrorKind>)
        ensures
            r == self.failure(),
    {
        match self {
            SessionReply::Opened => None,
            SessionReply::DatabaseNotFound => Some(ErrorKind::DatabaseNotFound),
            SessionReply::Unreachable => Some(ErrorKind::ConnectionError),
            SessionReply::TimedOut => Some(ErrorKind::Timeout),
        }
    }
}

impl QueryReply {
    pub open spec fn failure(self) -> Option<ErrorKind> {
        match self {
            QueryReply::SyntaxError => Some(ErrorKind::QuerySyntaxError),
            QueryReply::ExecutionError => Some(ErrorKind::QueryExecutionError),
            QueryReply::Unreachable => Some(ErrorKind::ConnectionError),
            QueryReply::TimedOut => Some(ErrorKind::Timeout),
            _ => None,
        }
    }

    /// The shape of the results, where there are any.
    pub open spec fn shape_of(self) -> Option<ResponseShape> {
        match self {
            QueryReply::Done => Some(ResponseShape::Done),
            QueryReply::Rows(_) => Some(ResponseShape::Rows),
            QueryReply::Documents(_) => Some(ResponseShape::Documents),
            QueryReply::Scalar(_) => Some(ResponseShape::Scalar),
            _ => None,
        }
    }

    /// The reply answers a query of this kind: it is a failure, or it
    /// has the shape that the answer to such a query has.
    pub open spec fn answers(self, kind: QueryKind) -> bool {
        self.failure() is Some || self.shape_of() == Some(kind.shape_of())
    }

    /// How many rows or documents the reply holds.
    pub open spec fn row_count(self) -> nat {
        match self {
            QueryReply::Rows(rows) => rows@.len(),
            QueryReply::Documents(documents) => documents@.len(),
            _ => 0,
        }
    }

    pub fn error(&self) -> (r: Option<ErrorKind>)
        ensures
            r == self.failure(),
    {
        match self {
            QueryReply::SyntaxError => Some(ErrorKind::QuerySyntaxError),
            QueryReply::ExecutionError => Some(ErrorKind::QueryExecutionError),
            QueryReply::Unreachable => Some(ErrorKind::ConnectionError),
            QueryReply::TimedOut => Some(ErrorKind::Timeout),
            _ => None,
        }
    }

    pub fn shape(&self) -> (r: Option<ResponseShape>)
        ensures
            r == self.shape_of(),
    {
        match self {
            QueryReply::Done => Some(ResponseShape::Done),
            QueryReply::Rows(_) => Some(ResponseShape::Rows),
            QueryReply::Documents(_) => Some(ResponseShape::Documents),
            QueryReply::Scalar(_) => Some(ResponseShape::Scalar),
            _ => None,
        }
    }

    pub fn is_answer_to(&self, kind: QueryKind) -> (r: bool)
        ensures
            r == self.answers(kind),
    {
        match self.shape() {
            None => true,
            Some(shape) => shape == kind.shape(),
        }
    }

    pub fn rows(&self) -> (r: usize)
        ensures
            r == self.row_count(),
    {
        match self {
            QueryReply::Rows(rows) => rows.len(),
            QueryReply::Documents(documents) => documents.len(),
            _ => 0,
        }
    }
}

impl CommitReply {
    pub open spec fn failure(self) -> Option<ErrorKind> {
        match self {
            CommitReply::Committed => None,
            CommitReply::Rejected => Some(ErrorKind::CommitError),
            CommitReply::Unreachable => Some(ErrorKind::ConnectionError),
            CommitReply::TimedOut => Some(ErrorKind::Timeout),
        }
    }

    /// After these replies the caller cannot tell whether the writes were
    /// applied, and has to ask the server.
    pub open spec fn outcome_unknown(self) -> bool {
        self is Unreachable || self is TimedOut
    }

    pub fn error(&self) -> (r: Option<ErrorKind>)
        ensures
            r == self.failure(),
    {
        match self {
            CommitReply::Committed => None,
            CommitReply::Rejected => Some(ErrorKind::CommitError),
            CommitReply::Unreachable => Some(ErrorKind::ConnectionError),
            CommitReply::TimedOut => Some(ErrorKind::Timeout),
        }
    }

    pub fn is_outcome_unknown(&self) -> (r: bool)
        ensures
            r == self.outcome_unknown(),
    {
        match self {
            CommitReply::Unreachable | CommitReply::TimedOut => true,
            _ => false,
        }
    }
}

} // verus!
