//! What a task of the sample application asks its caller to do next.
//! The caller opens one transaction for a task, runs in it the queries
//! that the task sends, and ends it the way the task says.

use crate::model::{ManagerView, SessionType, TransactionType};
use crate::options::Options;
use crate::query::QueryKind;
use crate::sample::error::{AppError, AppErrorView};
use vstd::prelude::*;

verus! {

/// A query, with the kind of transaction that it is to run in.
#[derive(Debug, PartialEq, Eq)]
pub struct Request {
    pub session: SessionType,
    pub transaction: TransactionType,
    pub options: Options,
    pub kind: QueryKind,
    pub text: String,
}

/// How the transaction of a task is ended.
#[derive(Clone, Copy, Debug, PartialEq, Eq, Structural)]
pub enum Ending {
    /// Close it: nothing was written, or what was written is dropped.
    Close,
    /// Commit it; if the commit fails, the task fails with that error.
    Commit,
}

#[derive(Debug, PartialEq, Eq)]
pub enum Step<T> {
    /// Run this query and come back with the answer.
    Send(Request),
    /// End the transaction; this is what the task comes to.
    Finish { ending: Ending, result: Result<T, AppError> },
}

impl Request {
    /// The request is this query for this kind of transaction.
    pub open spec fn is(
        self,
        session: SessionType,
        transaction: TransactionType,
        options: Options,
        kind: QueryKind,
        text: Seq<char>,
    ) -> bool {
        &&& self.session == session
        &&& self.transaction == transaction
        &&& self.options == options
        &&& self.kind == kind
        &&& self.text@ == text
    }

    /// No manager refuses the query for being a write: it does not
    /// write, or its transaction is not a read transaction.
    pub open spec fn legal(self) -> bool {
        !(self.transaction is Read && self.kind.writes())
    }
}

impl<T> Step<T> {
    /// The step sends this query.
    pub open spec fn sends(
        self,
        session: SessionType,
        transaction: TransactionType,
        options: Options,
        kind: QueryKind,
        text: Seq<char>,
    ) -> bool {
        self matches Step::Send(request) && request.is(session, transaction, options, kind, text)
    }

    /// The step ends the task with this value.
    pub open spec fn succeeds(self, ending: Ending, value: T) -> bool {
        self matches Step::Finish { ending: e, result } && e == ending && result == Ok::<T, AppError>(
            value,
        )
    }

    /// The step ends the task with this error.
    pub open spec fn fails(self, ending: Ending, error: AppErrorView) -> bool {
        self matches Step::Finish { ending: e, result } && e == ending && (result matches Err(failure)
            && failure@ == error)
    }
}

/// What a task comes to, once its transaction was ended the way the
/// task said. `committed` is what came of the commit, where there was
/// one. A task whose transaction was to be committed succeeds only if
/// the commit did: a commit that failed is what the task fails with,
/// whatever the task had come to before. A task whose transaction was
/// closed comes to what it had come to.
pub fn conclude<T>(ending: Ending, result: Result<T, AppError>, committed: Result<(), AppError>) -> (r:
    Result<T, AppError>)
    ensures
        ending is Commit && committed is Err ==> (r matches Err(e) && Err::<(), AppError>(e) == committed),
        ending is Close || committed is Ok ==> r == result,
        r is Ok && ending is Commit ==> committed is Ok,
{
    match ending {
        Ending::Close => result,
        Ending::Commit => match committed {
            Ok(()) => result,
            Err(e) => Err(e),
        },
    }
}

/// The manager refuses no legal request: in an open transaction of the
/// kind that the request names, the query is let through to the server.
pub proof fn legal_request_is_let_through(m: ManagerView, t: int, request: Request)
    requires
        m.transaction_open(t),
        m.transactions[t].kind == request.transaction,
        request.legal(),
    ensures
        m.query_refusal(t, request.kind) is None,
{
}

} // verus!
