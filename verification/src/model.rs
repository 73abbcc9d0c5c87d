//! The mathematical model of the manager: its state as sequences, and each
//! operation as a function from state to state.

use crate::error::ErrorKind;
use crate::options::Options;
use crate::query::QueryKind;
use crate::reply::{CommitReply, QueryReply, SessionReply};
use vstd::prelude::*;

verus! {

/// The number that the manager gave a session when it opened it.
#[derive(Clone, Copy, Debug, PartialEq, Eq, Structural)]
pub struct SessionId {
    pub index: usize,
}

/// The number that the manager gave a transaction when it opened it.
#[derive(Clone, Copy, Debug, PartialEq, Eq, Structural)]
pub struct TransactionId {
    pub index: usize,
}

/// What a session is for: changing the schema, or working with the data.
#[derive(Clone, Copy, Debug, PartialEq, Eq, Structural)]
pub enum SessionType {
    Schema,
    Data,
}

/// What a transaction may do. `Read` is for work that changes nothing;
/// `Write` and `Schema` are for work that does.
#[derive(Clone, Copy, Debug, PartialEq, Eq, Structural)]
pub enum TransactionType {
    Read,
    Write,
    Schema,
}

/// Where a transaction stands. `Committed` and `Closed` are final.
#[derive(Clone, Copy, Debug, PartialEq, Eq, Structural)]
pub enum TransactionState {
    Open,
    Committed,
    Closed,
}

impl TransactionType {
    pub open spec fn read_only(self) -> bool {
        self is Read
    }

    pub fn is_read_only(&self) -> (r: bool)
        ensures
            r == self.read_only(),
    {
        match self {
            TransactionType::Read => true,
            _ => false,
        }
    }

    /// Work that changes nothing can be done again after a failure. Work
    /// that writes is never repeated on the caller's behalf: a commit whose
    /// answer was lost may have been applied.
    pub fn may_retry(&self) -> (r: bool)
        ensures
            r == self.read_only(),
    {
        self.is_read_only()
    }
}

impl TransactionState {
    pub open spec fn terminal(self) -> bool {
        !(self is Open)
    }

    pub fn is_terminal(&self) -> (r: bool)
        ensures
            r == self.terminal(),
    {
        match self {
            TransactionState::Open => false,
            _ => true,
        }
    }
}

/// One write that the server accepted inside a transaction.
#[verifier::ext_equal]
pub struct WriteView {
    pub kind: QueryKind,
    pub text: Seq<char>,
    pub rows: nat,
}

#[verifier::ext_equal]
pub struct SessionView {
    pub mode: SessionType,
    pub open: bool,
}

#[verifier::ext_equal]
pub struct TransactionView {
    /// The session that owns the transaction.
    pub session: int,
    pub kind: TransactionType,
    pub options: Options,
    pub state: TransactionState,
    /// The writes accepted so far, oldest first. Empty once closed.
    pub writes: Seq<WriteView>,
    /// How many commits had succeeded when the transaction was opened.
    pub snapshot: nat,
}

/// The state of a manager. Sessions and transactions are never removed:
/// the number of a session or transaction is its place in the sequence.
#[verifier::ext_equal]
pub struct ManagerView {
    pub database: Seq<char>,
    /// Whether the connection is still there. Once gone it does not come back.
    pub connected: bool,
    pub sessions: Seq<SessionView>,
    pub transactions: Seq<TransactionView>,
    /// The transactions whose commit succeeded, in the order of the commits.
    pub journal: Seq<int>,
}

/// One call of the manager, with what the server replied where it was asked.
#[allow(inconsistent_fields)]
pub enum Operation {
    OpenSession { mode: SessionType, reply: SessionReply },
    OpenTransaction { session: int, kind: TransactionType, options: Options },
    Query { transaction: int, kind: QueryKind, text: Seq<char>, reply: QueryReply },
    Commit { transaction: int, reply: CommitReply },
    Close { transaction: int },
    CloseSession { session: int },
    Disconnect,
}

/// One query with the reply to it.
pub struct QueryCall {
    pub kind: QueryKind,
    pub text: Seq<char>,
    pub reply: QueryReply,
}

/// The writes that a sequence of queries applies inside a transaction
/// of this kind, the first one first: each query that writes and did
/// not fail, and none where the transaction only reads.
pub open spec fn applied_writes(kind: TransactionType, calls: Seq<QueryCall>) -> Seq<WriteView>
    decreases calls.len(),
{
    if calls.len() == 0 {
        Seq::empty()
    } else {
        let earlier = applied_writes(kind, calls.drop_last());
        let call = calls.last();
        if call.kind.writes() && !(kind is Read) && call.reply.failure() is None {
            earlier.push(WriteView { kind: call.kind, text: call.text, rows: call.reply.row_count() })
        } else {
            earlier
        }
    }
}

impl TransactionView {
    /// The transaction as it is after `close`: closed, its writes discarded.
    pub open spec fn closed(self) -> TransactionView {
        TransactionView { state: TransactionState::Closed, writes: Seq::empty(), ..self }
    }

    /// The rows that the writes of the transaction affected, all together.
    pub open spec fn affected(self) -> nat {
        total_rows(self.writes)
    }
}

/// The sum of the rows of a sequence of writes.
pub open spec fn total_rows(writes: Seq<WriteView>) -> nat
    decreases writes.len(),
{
    if writes.len() == 0 {
        0
    } else {
        total_rows(writes.drop_last()) + writes.last().rows
    }
}

impl ManagerView {
    pub open spec fn session_open(self, s: int) -> bool {
        0 <= s < self.sessions.len() && self.sessions[s].open
    }

    pub open spec fn transaction_open(self, t: int) -> bool {
        0 <= t < self.transactions.len() && self.transactions[t].state is Open
    }

    /// What holds of every state that the operations can reach.
    pub open spec fn wf(self) -> bool {
        &&& forall|s: int| 0 <= s < self.sessions.len() && (#[trigger] self.sessions[s]).open ==> self.connected
        &&& forall|t: int|
            0 <= t < self.transactions.len() ==> 0 <= (#[trigger] self.transactions[t]).session
                < self.sessions.len()
        &&& forall|t: int|
            0 <= t < self.transactions.len() && (#[trigger] self.transactions[t]).state is Open
                ==> self.sessions[self.transactions[t].session].open
        &&& forall|t: int|
            0 <= t < self.transactions.len() ==> (#[trigger] self.transactions[t]).snapshot
                <= self.journal.len()
        &&& forall|t: int|
            0 <= t < self.transactions.len() && (#[trigger] self.transactions[t]).kind is Read
                ==> self.transactions[t].writes.len() == 0
        &&& forall|t: int|
            0 <= t < self.transactions.len() && (#[trigger] self.transactions[t]).state is Closed
                ==> self.transactions[t].writes.len() == 0
        &&& forall|i: int|
            0 <= i < self.journal.len() ==> self.committed_at(#[trigger] self.journal[i], i)
        &&& forall|t: int|
            0 <= t < self.transactions.len() && (#[trigger] self.transactions[t]).state is Committed
                ==> self.in_journal(t)
    }

    /// Place `i` of the journal holds `t`, a committed transaction, and no
    /// earlier place holds it.
    pub open spec fn committed_at(self, t: int, i: int) -> bool {
        &&& 0 <= i < self.journal.len()
        &&& self.journal[i] == t
        &&& 0 <= t < self.transactions.len()
        &&& self.transactions[t].state is Committed
        &&& forall|j: int| 0 <= j < i ==> self.journal[j] != t
    }

    pub open spec fn in_journal(self, t: int) -> bool {
        exists|i: int| 0 <= i < self.journal.len() && self.journal[i] == t
    }

    /// The state of a manager that has opened nothing yet.
    pub open spec fn initial(database: Seq<char>) -> ManagerView {
        ManagerView {
            database,
            connected: true,
            sessions: Seq::empty(),
            transactions: Seq::empty(),
            journal: Seq::empty(),
        }
    }

    /// The state after a session was opened: it is the last one.
    pub open spec fn with_session(self, mode: SessionType) -> ManagerView {
        ManagerView { sessions: self.sessions.push(SessionView { mode, open: true }), ..self }
    }

    /// The state after a transaction was opened in session `s`: it is the
    /// last one, open, without writes, and sees every commit made so far.
    pub open spec fn with_transaction(self, s: int, kind: TransactionType, options: Options) -> ManagerView {
        ManagerView {
            transactions: self.transactions.push(
                TransactionView {
                    session: s,
                    kind,
                    options,
                    state: TransactionState::Open,
                    writes: Seq::empty(),
                    snapshot: self.journal.len(),
                },
            ),
            ..self
        }
    }

    /// Why the manager itself refuses a query, before the server is asked.
    pub open spec fn query_refusal(self, t: int, kind: QueryKind) -> Option<ErrorKind> {
        if !self.transaction_open(t) {
            Some(ErrorKind::TransactionClosed)
        } else if self.transactions[t].kind is Read && kind.writes() {
            Some(ErrorKind::IllegalWrite)
        } else {
            None
        }
    }

    /// The state after the server accepted a write inside transaction `t`.
    pub open spec fn with_write(self, t: int, write: WriteView) -> ManagerView {
        ManagerView {
            transactions: self.transactions.update(
                t,
                TransactionView { writes: self.transactions[t].writes.push(write), ..self.transactions[t] },
            ),
            ..self
        }
    }

    /// The state after the commit of `t` succeeded.
    pub open spec fn with_commit(self, t: int) -> ManagerView {
        ManagerView {
            transactions: self.transactions.update(
                t,
                TransactionView { state: TransactionState::Committed, ..self.transactions[t] },
            ),
            journal: self.journal.push(t),
            ..self
        }
    }

    /// The state after `t` was closed without a commit.
    pub open spec fn with_close(self, t: int) -> ManagerView {
        ManagerView { transactions: self.transactions.update(t, self.transactions[t].closed()), ..self }
    }

    /// The state after session `s` was closed: each of its transactions that
    /// was still open is closed, the others are as before.
    pub open spec fn with_session_closed(self, s: int) -> ManagerView {
        ManagerView {
            sessions: self.sessions.update(s, SessionView { open: false, ..self.sessions[s] }),
            transactions: Seq::new(
                self.transactions.len(),
                |t: int|
                    if self.transactions[t].session == s && self.transactions[t].state is Open {
                        self.transactions[t].closed()
                    } else {
                        self.transactions[t]
                    },
            ),
            ..self
        }
    }

    /// The state after a session was asked for.
    pub open spec fn after_open_session(self, mode: SessionType, reply: SessionReply) -> ManagerView {
        if self.open_session_error(reply) is None {
            self.with_session(mode)
        } else {
            self
        }
    }

    /// Why no session is opened: the connection was closed, or else the
    /// server did not open one.
    pub open spec fn open_session_error(self, reply: SessionReply) -> Option<ErrorKind> {
        if !self.connected {
            Some(ErrorKind::ConnectionError)
        } else {
            reply.failure()
        }
    }

    /// The state after the connection was closed: every session is closed,
    /// and with it every transaction that was still open.
    pub open spec fn after_disconnect(self) -> ManagerView {
        ManagerView {
            connected: false,
            sessions: Seq::new(
                self.sessions.len(),
                |s: int| SessionView { open: false, ..self.sessions[s] },
            ),
            transactions: Seq::new(
                self.transactions.len(),
                |t: int|
                    if self.transactions[t].state is Open {
                        self.transactions[t].closed()
                    } else {
                        self.transactions[t]
                    },
            ),
            ..self
        }
    }

    /// The state after a transaction was asked for in session `s`.
    pub open spec fn after_open_transaction(
        self,
        s: int,
        kind: TransactionType,
        options: Options,
    ) -> ManagerView {
        if self.session_open(s) {
            self.with_transaction(s, kind, options)
        } else {
            self
        }
    }

    /// Why a query fails: the manager refuses it, or else the server did.
    pub open spec fn query_error(self, t: int, kind: QueryKind, reply: QueryReply) -> Option<ErrorKind> {
        match self.query_refusal(t, kind) {
            Some(e) => Some(e),
            None => reply.failure(),
        }
    }

    /// The state after a query: a write that did not fail is recorded,
    /// anything else leaves the state as it was.
    pub open spec fn after_query(self, t: int, kind: QueryKind, text: Seq<char>, reply: QueryReply) -> ManagerView {
        if self.query_error(t, kind, reply) is None && kind.writes() {
            self.with_write(t, WriteView { kind, text, rows: reply.row_count() })
        } else {
            self
        }
    }

    /// The state after a sequence of queries inside transaction `t`, the
    /// first one first.
    pub open spec fn after_queries(self, t: int, calls: Seq<QueryCall>) -> ManagerView
        decreases calls.len(),
    {
        if calls.len() == 0 {
            self
        } else {
            self.after_queries(t, calls.drop_last()).after_query(
                t,
                calls.last().kind,
                calls.last().text,
                calls.last().reply,
            )
        }
    }

    /// Why a commit fails: the transaction has ended, or else the server
    /// did not confirm.
    pub open spec fn commit_error(self, t: int, reply: CommitReply) -> Option<ErrorKind> {
        if !self.transaction_open(t) {
            Some(ErrorKind::TransactionClosed)
        } else {
            reply.failure()
        }
    }

    /// The state after a commit. An open transaction ends either way:
    /// committed if the server confirmed, closed without its writes if not.
    pub open spec fn after_commit(self, t: int, reply: CommitReply) -> ManagerView {
        if !self.transaction_open(t) {
            self
        } else if reply is Committed {
            self.with_commit(t)
        } else {
            self.with_close(t)
        }
    }

    /// The state after `close`: an open transaction is closed, one that has
    /// ended stays as it is.
    pub open spec fn after_close(self, t: int) -> ManagerView {
        if self.transaction_open(t) {
            self.with_close(t)
        } else {
            self
        }
    }

    /// The state after a session was closed; nothing changes where it was
    /// closed before.
    pub open spec fn after_close_session(self, s: int) -> ManagerView {
        if self.session_open(s) {
            self.with_session_closed(s)
        } else {
            self
        }
    }

    /// The state after one operation.
    pub open spec fn apply(self, op: Operation) -> ManagerView {
        match op {
            Operation::OpenSession { mode, reply } => self.after_open_session(mode, reply),
            Operation::OpenTransaction { session, kind, options } => self.after_open_transaction(
                session,
                kind,
                options,
            ),
            Operation::Query { transaction, kind, text, reply } => self.after_query(
                transaction,
                kind,
                text,
                reply,
            ),
            Operation::Commit { transaction, reply } => self.after_commit(transaction, reply),
            Operation::Close { transaction } => self.after_close(transaction),
            Operation::CloseSession { session } => self.after_close_session(session),
            Operation::Disconnect => self.after_disconnect(),
        }
    }

    /// The state after a sequence of operations, the first one first.
    pub open spec fn run(self, ops: Seq<Operation>) -> ManagerView
        decreases ops.len(),
    {
        if ops.len() == 0 {
            self
        } else {
            self.run(ops.drop_last()).apply(ops.last())
        }
    }

    /// Transaction `reader` sees what `writer` wrote: the commit of `writer`
    /// had succeeded when `reader` was opened.
    pub open spec fn observes(self, reader: int, writer: int) -> bool {
        &&& 0 <= reader < self.transactions.len()
        &&& exists|i: int| 0 <= i < self.transactions[reader].snapshot && self.journal[i] == writer
    }
}

} // verus!
