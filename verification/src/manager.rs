//! The lifecycle manager: it keeps, for one database, the sessions and
//! transactions that the caller has opened, and decides for each
//! operation whether it is allowed and what it changes.

use crate::answer::{Row, Value};
use crate::error::ErrorKind;
use crate::model::{
    total_rows, ManagerView, SessionId, SessionType, SessionView, TransactionId, TransactionState,
    TransactionType, TransactionView, WriteView,
};
use crate::options::Options;
use crate::query::{QueryKind, ResponseShape};
use crate::reply::{CommitReply, ConnectReply, QueryReply, SessionReply};
use crate::stream::ResultStream;
use crate::theorems::{
    close_keeps_well_formed, close_session_keeps_well_formed, commit_keeps_well_formed,
    disconnect_keeps_well_formed, open_session_keeps_well_formed, open_transaction_keeps_well_formed,
    query_keeps_well_formed,
};
use vstd::prelude::*;

verus! {

/// One write that the server accepted: the query, and how many rows it
/// answered with.
#[derive(Debug, PartialEq, Eq)]
pub struct Write {
    pub kind: QueryKind,
    pub text: String,
    pub rows: usize,
}

impl View for Write {
    type V = WriteView;

    open spec fn view(&self) -> WriteView {
        WriteView { kind: self.kind, text: self.text@, rows: self.rows as nat }
    }
}

struct SessionEntry {
    mode: SessionType,
    open: bool,
}

struct TransactionEntry {
    session: usize,
    kind: TransactionType,
    options: Options,
    state: TransactionState,
    writes: Vec<Write>,
    snapshot: usize,
}

impl View for SessionEntry {
    type V = SessionView;

    closed spec fn view(&self) -> SessionView {
        SessionView { mode: self.mode, open: self.open }
    }
}

impl View for TransactionEntry {
    type V = TransactionView;

    closed spec fn view(&self) -> TransactionView {
        TransactionView {
            session: self.session as int,
            kind: self.kind,
            options: self.options,
            state: self.state,
            writes: self.writes@.map_values(|w: Write| w@),
            snapshot: self.snapshot as nat,
        }
    }
}

/// What the caller sends to the server for one query. It carries the
/// options that the transaction was opened with.
#[derive(Debug, PartialEq, Eq)]
pub struct QueryRequest {
    pub text: String,
    pub kind: QueryKind,
    pub options: Options,
    /// The shape that the answer to a query of this kind has.
    pub shape: ResponseShape,
}

/// The results of a query that did not fail.
#[derive(Debug, PartialEq, Eq)]
pub enum Answer {
    Done,
    Rows(ResultStream<Row>),
    Documents(ResultStream<String>),
    Scalar(Option<Value>),
}

impl Answer {
    /// The answer holds what the reply held, as streams that belong to `t`.
    pub open spec fn carries(self, t: TransactionId, reply: QueryReply) -> bool {
        match (self, reply) {
            (Answer::Done, QueryReply::Done) => true,
            (Answer::Rows(stream), QueryReply::Rows(rows)) => stream.owner_of() == t && stream.remaining()
                == rows@,
            (Answer::Documents(stream), QueryReply::Documents(documents)) => stream.owner_of() == t
                && stream.remaining() == documents@,
            (Answer::Scalar(value), QueryReply::Scalar(sent)) => value == sent,
            _ => false,
        }
    }

    pub open spec fn shape_of(self) -> ResponseShape {
        match self {
            Answer::Done => ResponseShape::Done,
            Answer::Rows(_) => ResponseShape::Rows,
            Answer::Documents(_) => ResponseShape::Documents,
            Answer::Scalar(_) => ResponseShape::Scalar,
        }
    }

    pub fn shape(&self) -> (r: ResponseShape)
        ensures
            r == self.shape_of(),
    {
        match self {
            Answer::Done => ResponseShape::Done,
            Answer::Rows(_) => ResponseShape::Rows,
            Answer::Documents(_) => ResponseShape::Documents,
            Answer::Scalar(_) => ResponseShape::Scalar,
        }
    }
}

pub struct Manager {
    database: String,
    connected: bool,
    sessions: Vec<SessionEntry>,
    transactions: Vec<TransactionEntry>,
    journal: Vec<usize>,
}

impl View for Manager {
    type V = ManagerView;

    closed spec fn view(&self) -> ManagerView {
        ManagerView {
            database: self.database@,
            connected: self.connected,
            sessions: self.sessions@.map_values(|e: SessionEntry| e@),
            transactions: self.transactions@.map_values(|e: TransactionEntry| e@),
            journal: self.journal@.map_values(|t: usize| t as int),
        }
    }
}

impl Manager {
    /// The manager is in a state that its operations can reach.
    pub open spec fn wf(&self) -> bool {
        self@.wf()
    }

    /// A manager for the database of this name, with nothing opened.
    pub fn new(database: String) -> (r: Manager)
        ensures
            r.wf(),
            r@ == ManagerView::initial(database@),
    {
        let r = Manager {
            database,
            connected: true,
            sessions: Vec::new(),
            transactions: Vec::new(),
            journal: Vec::new(),
        };
        assert(r@ =~~= ManagerView::initial(database@));
        r
    }

    /// A manager for the database of this name, if the connection to the
    /// server was made; if not, why not.
    pub fn connect(database: String, reply: ConnectReply) -> (r: Result<Manager, ErrorKind>)
        ensures
            match reply.failure() {
                Some(e) => r matches Err(error) && error == e,
                None => r matches Ok(manager) && manager.wf() && manager@ == ManagerView::initial(database@),
            },
    {
        match reply.error() {
            Some(e) => Err(e),
            None => Ok(Manager::new(database)),
        }
    }

    /// The name of the database.
    pub fn database(&self) -> (r: &str)
        ensures
            r@ == self@.database,
    {
        self.database.as_str()
    }

    pub fn is_connected(&self) -> (r: bool)
        ensures
            r == self@.connected,
    {
        self.connected
    }

    /// Closes the connection: every session is closed, and with it every
    /// transaction that was still open. Nothing can be opened afterwards.
    pub fn disconnect(&mut self)
        requires
            old(self).wf(),
        ensures
            final(self).wf(),
            final(self)@ == old(self)@.after_disconnect(),
    {
        proof {
            disconnect_keeps_well_formed(self@);
        }
        let ghost before = self@;
        let ghost after = before.after_disconnect();
        let n: usize = self.transactions.len();
        let mut i: usize = 0;
        while i < n
            invariant
                i <= n,
                n == before.transactions.len(),
                self@.transactions.len() == n,
                self@.database == before.database,
                self@.connected == before.connected,
                self@.sessions == before.sessions,
                self@.journal == before.journal,
                after == before.after_disconnect(),
                forall|j: int| 0 <= j < i ==> self@.transactions[j] == after.transactions[j],
                forall|j: int| i <= j < n ==> self@.transactions[j] == before.transactions[j],
            decreases n - i,
        {
            if self.is_open(TransactionId { index: i }) {
                self.discard(i);
            }
            assert(self@.transactions[i as int] == after.transactions[i as int]);
            i += 1;
        }
        let k: usize = self.sessions.len();
        let mut j: usize = 0;
        while j < k
            invariant
                j <= k,
                k == before.sessions.len(),
                self@.sessions.len() == k,
                self@.database == before.database,
                self@.connected == before.connected,
                self@.transactions =~= after.transactions,
                self@.journal == before.journal,
                after == before.after_disconnect(),
                forall|s: int| 0 <= s < j ==> self@.sessions[s] == after.sessions[s],
                forall|s: int| j <= s < k ==> self@.sessions[s] == before.sessions[s],
            decreases k - j,
        {
            self.sessions[j].open = false;
            j += 1;
        }
        self.connected = false;
        assert(self@ =~~= after);
    }

    /// Records the session that the server opened, or hands on why it did
    /// not open one. Once the connection is closed, no session is opened
    /// whatever the server says.
    pub fn open_session(&mut self, mode: SessionType, reply: SessionReply) -> (r: Result<
        SessionId,
        ErrorKind,
    >)
        requires
            old(self).wf(),
        ensures
            final(self).wf(),
            final(self)@ == old(self)@.after_open_session(mode, reply),
            r == (match old(self)@.open_session_error(reply) {
                Some(e) => Err::<SessionId, ErrorKind>(e),
                None => Ok(SessionId { index: old(self)@.sessions.len() as usize }),
            }),
    {
        proof {
            open_session_keeps_well_formed(self@, mode, reply);
        }
        if !self.connected {
            return Err(ErrorKind::ConnectionError);
        }
        match reply.error() {
            Some(e) => Err(e),
            None => {
                let index: usize = self.sessions.len();
                self.sessions.push(SessionEntry { mode, open: true });
                assert(self@ =~~= old(self)@.with_session(mode));
                Ok(SessionId { index })
            },
        }
    }

    /// Opens a transaction in a session that is open.
    pub fn open_transaction(&mut self, session: SessionId, kind: TransactionType, options: Options) -> (r:
        Result<TransactionId, ErrorKind>)
        requires
            old(self).wf(),
        ensures
            final(self).wf(),
            final(self)@ == old(self)@.after_open_transaction(session.index as int, kind, options),
            r == (if old(self)@.session_open(session.index as int) {
                Ok::<TransactionId, ErrorKind>(
                    TransactionId { index: old(self)@.transactions.len() as usize },
                )
            } else {
                Err(ErrorKind::SessionClosed)
            }),
    {
        proof {
            open_transaction_keeps_well_formed(self@, session.index as int, kind, options);
        }
        if !self.session_is_open(session) {
            return Err(ErrorKind::SessionClosed);
        }
        let index: usize = self.transactions.len();
        let snapshot: usize = self.journal.len();
        self.transactions.push(
            TransactionEntry {
                session: session.index,
                kind,
                options,
                state: TransactionState::Open,
                writes: Vec::new(),
                snapshot,
            },
        );
        assert(self@ =~~= old(self)@.with_transaction(session.index as int, kind, options));
        Ok(TransactionId { index })
    }

    pub fn session_is_open(&self, session: SessionId) -> (r: bool)
        ensures
            r == self@.session_open(session.index as int),
    {
        session.index < self.sessions.len() && self.sessions[session.index].open
    }

    pub fn is_open(&self, transaction: TransactionId) -> (r: bool)
        ensures
            r == self@.transaction_open(transaction.index as int),
    {
        transaction.index < self.transactions.len() && match self.transactions[transaction.index].state {
            TransactionState::Open => true,
            _ => false,
        }
    }

    /// Decides whether a query may be sent, and with what. The request
    /// carries the options that the transaction was opened with.
    pub fn prepare_query(&self, transaction: TransactionId, kind: QueryKind, text: &str) -> (r: Result<
        QueryRequest,
        ErrorKind,
    >)
        ensures
            match self@.query_refusal(transaction.index as int, kind) {
                Some(e) => r == Err::<QueryRequest, ErrorKind>(e),
                None => r matches Ok(request) && request.text@ == text@ && request.kind == kind
                    && request.options == self@.transactions[transaction.index as int].options
                    && request.shape == kind.shape_of(),
            },
    {
        if !self.is_open(transaction) {
            return Err(ErrorKind::TransactionClosed);
        }
        let entry = &self.transactions[transaction.index];
        if entry.kind.is_read_only() && kind.is_write() {
            return Err(ErrorKind::IllegalWrite);
        }
        Ok(QueryRequest { text: text.to_owned(), kind, options: entry.options, shape: kind.shape() })
    }

    /// Takes in the reply to a query, which must be a reply to a query of
    /// this kind. A query that the manager refuses, or that the server
    /// failed, changes nothing; a write that went through is added to the
    /// writes of the transaction. The answer has the shape of the kind.
    pub fn execute_query(
        &mut self,
        transaction: TransactionId,
        kind: QueryKind,
        text: &str,
        reply: QueryReply,
    ) -> (r: Result<Answer, ErrorKind>)
        requires
            old(self).wf(),
            reply.answers(kind),
        ensures
            final(self).wf(),
            final(self)@ == old(self)@.after_query(transaction.index as int, kind, text@, reply),
            match old(self)@.query_error(transaction.index as int, kind, reply) {
                Some(e) => r == Err::<Answer, ErrorKind>(e),
                None => r matches Ok(answer) && answer.carries(transaction, reply) && answer.shape_of()
                    == kind.shape_of(),
            },
    {
        proof {
            query_keeps_well_formed(self@, transaction.index as int, kind, text@, reply);
        }
        if !self.is_open(transaction) {
            return Err(ErrorKind::TransactionClosed);
        }
        if self.transactions[transaction.index].kind.is_read_only() && kind.is_write() {
            return Err(ErrorKind::IllegalWrite);
        }
        if let Some(e) = reply.error() {
            return Err(e);
        }
        if kind.is_write() {
            let write = Write { kind, text: text.to_owned(), rows: reply.rows() };
            self.transactions[transaction.index].writes.push(write);
            assert(self@ =~~= old(self)@.with_write(
                transaction.index as int,
                WriteView { kind, text: text@, rows: reply.row_count() },
            ));
        }
        let answer = match reply {
            QueryReply::Rows(rows) => Answer::Rows(ResultStream::new(transaction, rows)),
            QueryReply::Documents(documents) => Answer::Documents(ResultStream::new(transaction, documents)),
            QueryReply::Scalar(value) => Answer::Scalar(value),
            _ => Answer::Done,
        };
        Ok(answer)
    }

    /// Ends a transaction with the reply to its commit. A transaction that
    /// has ended is refused and stays as it is. An open one ends whatever
    /// the reply: committed if the server confirmed, closed without its
    /// writes if not. Nothing is sent again.
    pub fn commit(&mut self, transaction: TransactionId, reply: CommitReply) -> (r: Result<(), ErrorKind>)
        requires
            old(self).wf(),
        ensures
            final(self).wf(),
            final(self)@ == old(self)@.after_commit(transaction.index as int, reply),
            r == (match old(self)@.commit_error(transaction.index as int, reply) {
                Some(e) => Err::<(), ErrorKind>(e),
                None => Ok(()),
            }),
    {
        proof {
            commit_keeps_well_formed(self@, transaction.index as int, reply);
        }
        if !self.is_open(transaction) {
            return Err(ErrorKind::TransactionClosed);
        }
        match reply.error() {
            None => {
                self.transactions[transaction.index].state = TransactionState::Committed;
                self.journal.push(transaction.index);
                assert(self@ =~~= old(self)@.with_commit(transaction.index as int));
                Ok(())
            },
            Some(e) => {
                self.discard(transaction.index);
                Err(e)
            },
        }
    }

    /// Ends a transaction without a commit: its writes are discarded. On a
    /// transaction that has ended, or that this manager never opened,
    /// nothing happens.
    pub fn close(&mut self, transaction: TransactionId)
        requires
            old(self).wf(),
        ensures
            final(self).wf(),
            final(self)@ == old(self)@.after_close(transaction.index as int),
    {
        proof {
            close_keeps_well_formed(self@, transaction.index as int);
        }
        if self.is_open(transaction) {
            self.discard(transaction.index);
        }
    }

    /// Closes the transaction at `index` and drops its writes.
    fn discard(&mut self, index: usize)
        requires
            index < old(self)@.transactions.len(),
        ensures
            final(self)@ == old(self)@.with_close(index as int),
    {
        self.transactions[index].state = TransactionState::Closed;
        self.transactions[index].writes.clear();
        assert(self@ =~~= old(self)@.with_close(index as int));
    }

    /// Closes a session: first each of its transactions that is still
    /// open, then the session itself. On a session that is closed, or that
    /// this manager never opened, nothing happens.
    pub fn close_session(&mut self, session: SessionId)
        requires
            old(self).wf(),
        ensures
            final(self).wf(),
            final(self)@ == old(self)@.after_close_session(session.index as int),
    {
        proof {
            close_session_keeps_well_formed(self@, session.index as int);
        }
        if !self.session_is_open(session) {
            return ;
        }
        let ghost before = self@;
        let ghost after = before.with_session_closed(session.index as int);
        let n: usize = self.transactions.len();
        let mut i: usize = 0;
        while i < n
            invariant
                i <= n,
                n == before.transactions.len(),
                self@.transactions.len() == n,
                self@.database == before.database,
                self@.connected == before.connected,
                self@.sessions == before.sessions,
                self@.journal == before.journal,
                after == before.with_session_closed(session.index as int),
                forall|j: int| 0 <= j < i ==> self@.transactions[j] == after.transactions[j],
                forall|j: int| i <= j < n ==> self@.transactions[j] == before.transactions[j],
            decreases n - i,
        {
            let owned: bool = self.transactions[i].session == session.index;
            if owned && self.is_open(TransactionId { index: i }) {
                self.discard(i);
            }
            assert(self@.transactions[i as int] == after.transactions[i as int]);
            i += 1;
        }
        self.sessions[session.index].open = false;
        assert(self@ =~~= after);
    }

    /// Hands out the next item of a stream, or `None` at its end. A stream
    /// is of use only while the transaction that owns it is open.
    pub fn next<T>(&self, stream: &mut ResultStream<T>) -> (r: Result<Option<T>, ErrorKind>)
        ensures
            final(stream).owner_of() == old(stream).owner_of(),
            !self@.transaction_open(old(stream).owner_of().index as int) ==> r == Err::<
                Option<T>,
                ErrorKind,
            >(ErrorKind::TransactionClosed) && final(stream).remaining() == old(stream).remaining(),
            self@.transaction_open(old(stream).owner_of().index as int) ==> r == Ok::<
                Option<T>,
                ErrorKind,
            >(
                if old(stream).remaining().len() > 0 {
                    Some(old(stream).remaining()[0])
                } else {
                    None
                },
            ) && final(stream).remaining() == (if old(stream).remaining().len() > 0 {
                old(stream).remaining().drop_first()
            } else {
                old(stream).remaining()
            }),
    {
        if !self.is_open(stream.owner()) {
            return Err(ErrorKind::TransactionClosed);
        }
        Ok(stream.take_next())
    }

    /// Hands out all that is left of a stream, in its order.
    pub fn collect<T>(&self, stream: ResultStream<T>) -> (r: Result<Vec<T>, ErrorKind>)
        ensures
            !self@.transaction_open(stream.owner_of().index as int) ==> r is Err && r->Err_0
                == ErrorKind::TransactionClosed,
            self@.transaction_open(stream.owner_of().index as int) ==> r is Ok && r->Ok_0@
                == stream.remaining(),
    {
        if !self.is_open(stream.owner()) {
            return Err(ErrorKind::TransactionClosed);
        }
        let ghost all = stream.remaining();
        let mut stream = stream;
        let mut items: Vec<T> = Vec::new();
        while !stream.is_exhausted()
            invariant
                items@ + stream.remaining() == all,
            decreases stream.remaining().len(),
        {
            let ghost left = stream.remaining();
            let item = stream.take_next().unwrap();
            items.push(item);
            assert(items@ + stream.remaining() =~= all) by {
                assert(left =~= seq![left[0]] + left.drop_first());
            }
        }
        assert(items@ =~= all);
        Ok(items)
    }

    pub fn session_count(&self) -> (r: usize)
        ensures
            r == self@.sessions.len(),
    {
        self.sessions.len()
    }

    pub fn transaction_count(&self) -> (r: usize)
        ensures
            r == self@.transactions.len(),
    {
        self.transactions.len()
    }

    /// How many commits have succeeded.
    pub fn commit_count(&self) -> (r: usize)
        ensures
            r == self@.journal.len(),
    {
        self.journal.len()
    }

    pub fn session_type(&self, session: SessionId) -> (r: Option<SessionType>)
        ensures
            r == (if session.index < self@.sessions.len() {
                Some(self@.sessions[session.index as int].mode)
            } else {
                None
            }),
    {
        if session.index < self.sessions.len() {
            Some(self.sessions[session.index].mode)
        } else {
            None
        }
    }

    pub fn state(&self, transaction: TransactionId) -> (r: Option<TransactionState>)
        ensures
            r == (if transaction.index < self@.transactions.len() {
                Some(self@.transactions[transaction.index as int].state)
            } else {
                None
            }),
    {
        if transaction.index < self.transactions.len() {
            Some(self.transactions[transaction.index].state)
        } else {
            None
        }
    }

    pub fn transaction_type(&self, transaction: TransactionId) -> (r: Option<TransactionType>)
        ensures
            r == (if transaction.index < self@.transactions.len() {
                Some(self@.transactions[transaction.index as int].kind)
            } else {
                None
            }),
    {
        if transaction.index < self.transactions.len() {
            Some(self.transactions[transaction.index].kind)
        } else {
            None
        }
    }

    /// The options that the transaction was opened with.
    pub fn options(&self, transaction: TransactionId) -> (r: Option<Options>)
        ensures
            r == (if transaction.index < self@.transactions.len() {
                Some(self@.transactions[transaction.index as int].options)
            } else {
                None
            }),
    {
        if transaction.index < self.transactions.len() {
            Some(self.transactions[transaction.index].options)
        } else {
            None
        }
    }

    /// The session that owns the transaction.
    pub fn session_of(&self, transaction: TransactionId) -> (r: Option<SessionId>)
        ensures
            r == (if transaction.index < self@.transactions.len() {
                Some(SessionId { index: self@.transactions[transaction.index as int].session as usize })
            } else {
                None
            }),
    {
        if transaction.index < self.transactions.len() {
            Some(SessionId { index: self.transactions[transaction.index].session })
        } else {
            None
        }
    }

    /// The writes that the transaction holds: those accepted so far while
    /// it is open, those it committed once committed, none once closed.
    pub fn writes(&self, transaction: TransactionId) -> (r: Option<&Vec<Write>>)
        ensures
            r is Some <==> transaction.index < self@.transactions.len(),
            r matches Some(writes) ==> writes@.map_values(|w: Write| w@)
                == self@.transactions[transaction.index as int].writes,
    {
        if transaction.index < self.transactions.len() {
            Some(&self.transactions[transaction.index].writes)
        } else {
            None
        }
    }

    /// The rows that the writes of the transaction affected, all together;
    /// 0 for a transaction that this manager never opened.
    pub fn affected_rows(&self, transaction: TransactionId) -> (r: u128)
        ensures
            r == (if transaction.index < self@.transactions.len() {
                self@.transactions[transaction.index as int].affected()
            } else {
                0
            }),
    {
        if transaction.index >= self.transactions.len() {
            return 0;
        }
        let writes = &self.transactions[transaction.index].writes;
        let ghost all = self@.transactions[transaction.index as int].writes;
        let mut total: u128 = 0;
        let mut i: usize = 0;
        while i < writes.len()
            invariant
                i <= writes.len(),
                all == writes@.map_values(|w: Write| w@),
                total == total_rows(all.take(i as int)),
                total <= i * usize::MAX,
            decreases writes.len() - i,
        {
            assert(all.take(i + 1).drop_last() =~= all.take(i as int));
            assert((i + 1) * usize::MAX == i * usize::MAX + usize::MAX) by (nonlinear_arith);
            assert(i * usize::MAX <= usize::MAX * usize::MAX) by (nonlinear_arith)
                requires
                    i <= usize::MAX,
            ;
            assert(usize::MAX * usize::MAX <= 0xffff_ffff_ffff_ffff * 0xffff_ffff_ffff_ffff)
                by (nonlinear_arith);
            total = total + writes[i].rows as u128;
            i += 1;
        }
        assert(all.take(i as int) =~= all);
        total
    }

    /// Whether `reader` sees what `writer` wrote: whether the commit of
    /// `writer` had succeeded when `reader` was opened.
    pub fn observes(&self, reader: TransactionId, writer: TransactionId) -> (r: bool)
        requires
            self.wf(),
        ensures
            r == self@.observes(reader.index as int, writer.index as int),
    {
        if reader.index >= self.transactions.len() {
            return false;
        }
        let snapshot: usize = self.transactions[reader.index].snapshot;
        let mut i: usize = 0;
        while i < snapshot
            invariant
                i <= snapshot,
                snapshot <= self.journal.len(),
                reader.index < self.transactions.len(),
                snapshot == self@.transactions[reader.index as int].snapshot,
                forall|j: int| 0 <= j < i ==> self@.journal[j] != writer.index,
            decreases snapshot - i,
        {
            if self.journal[i] == writer.index {
                assert(self@.journal[i as int] == writer.index);
                return true;
            }
            i += 1;
        }
        false
    }
}

} // verus!
