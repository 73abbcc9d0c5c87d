//! What holds of the model whatever the caller does: the operations keep
//! the state well formed, and the transactions obey the rules of their
//! lifecycle.

use crate::error::ErrorKind;
use crate::model::{applied_writes, ManagerView, Operation, QueryCall, SessionType, TransactionType};
use crate::options::Options;
use crate::query::QueryKind;
use crate::reply::{CommitReply, QueryReply, SessionReply};
use vstd::prelude::*;

verus! {

/// What the journal says of the committed transactions stays true in a
/// state with the same journal and the same committed transactions.
proof fn journal_carries_over(m: ManagerView, n: ManagerView)
    requires
        m.wf(),
        n.journal == m.journal,
        m.transactions.len() <= n.transactions.len(),
        forall|t: int|
            0 <= t < n.transactions.len() ==> ((#[trigger] n.transactions[t]).state is Committed <==> t
                < m.transactions.len() && m.transactions[t].state is Committed),
    ensures
        forall|i: int| 0 <= i < n.journal.len() ==> n.committed_at(#[trigger] n.journal[i], i),
        forall|t: int|
            0 <= t < n.transactions.len() && (#[trigger] n.transactions[t]).state is Committed
                ==> n.in_journal(t),
{
    assert forall|i: int| 0 <= i < n.journal.len() implies n.committed_at(#[trigger] n.journal[i], i) by {
        assert(m.committed_at(m.journal[i], i));
    }
    assert forall|t: int|
        0 <= t < n.transactions.len() && (#[trigger] n.transactions[t]).state is Committed implies n.in_journal(
        t,
    ) by {
        assert(m.transactions[t].state is Committed);
        assert(m.in_journal(t));
        let i = choose|i: int| 0 <= i < m.journal.len() && m.journal[i] == t;
        assert(n.journal[i] == t);
    }
}

/// A manager that has opened nothing is well formed.
pub proof fn initial_is_well_formed(database: Seq<char>)
    ensures
        ManagerView::initial(database).wf(),
{
}

/// Asking for a session keeps the state well formed.
pub proof fn open_session_keeps_well_formed(m: ManagerView, mode: SessionType, reply: SessionReply)
    requires
        m.wf(),
    ensures
        m.after_open_session(mode, reply).wf(),
{
    let n = m.after_open_session(mode, reply);
    if m.open_session_error(reply) is None {
        journal_carries_over(m, n);
    }
}

/// Asking for a transaction keeps the state well formed.
pub proof fn open_transaction_keeps_well_formed(
    m: ManagerView,
    s: int,
    kind: TransactionType,
    options: Options,
)
    requires
        m.wf(),
    ensures
        m.after_open_transaction(s, kind, options).wf(),
{
    let n = m.after_open_transaction(s, kind, options);
    if m.session_open(s) {
        journal_carries_over(m, n);
    }
}

/// A query keeps the state well formed, whatever the server replied.
pub proof fn query_keeps_well_formed(
    m: ManagerView,
    t: int,
    kind: QueryKind,
    text: Seq<char>,
    reply: QueryReply,
)
    requires
        m.wf(),
    ensures
        m.after_query(t, kind, text, reply).wf(),
{
    let n = m.after_query(t, kind, text, reply);
    if m.query_error(t, kind, reply) is None && kind.writes() {
        journal_carries_over(m, n);
    }
}

/// A commit keeps the state well formed, whatever the server replied.
pub proof fn commit_keeps_well_formed(m: ManagerView, t: int, reply: CommitReply)
    requires
        m.wf(),
    ensures
        m.after_commit(t, reply).wf(),
{
    let n = m.after_commit(t, reply);
    if m.transaction_open(t) {
        if reply is Committed {
            assert forall|i: int| 0 <= i < n.journal.len() implies n.committed_at(
                #[trigger] n.journal[i],
                i,
            ) by {
                if i < m.journal.len() {
                    assert(m.committed_at(m.journal[i], i));
                } else {
                    assert forall|j: int| 0 <= j < i implies n.journal[j] != t by {
                        assert(m.committed_at(m.journal[j], j));
                    }
                }
            }
            assert forall|u: int|
                0 <= u < n.transactions.len() && (#[trigger] n.transactions[u]).state is Committed implies n.in_journal(
                u,
            ) by {
                if u == t {
                    assert(n.journal[m.journal.len() as int] == t);
                } else {
                    assert(m.transactions[u].state is Committed);
                    assert(m.in_journal(u));
                    let i = choose|i: int| 0 <= i < m.journal.len() && m.journal[i] == u;
                    assert(n.journal[i] == u);
                }
            }
        } else {
            close_keeps_well_formed(m, t);
        }
    }
}

/// Closing a transaction keeps the state well formed.
pub proof fn close_keeps_well_formed(m: ManagerView, t: int)
    requires
        m.wf(),
    ensures
        m.after_close(t).wf(),
{
    let n = m.after_close(t);
    if m.transaction_open(t) {
        journal_carries_over(m, n);
    }
}

/// Closing a session keeps the state well formed.
pub proof fn close_session_keeps_well_formed(m: ManagerView, s: int)
    requires
        m.wf(),
    ensures
        m.after_close_session(s).wf(),
{
    let n = m.after_close_session(s);
    if m.session_open(s) {
        journal_carries_over(m, n);
    }
}

/// Closing the connection keeps the state well formed.
pub proof fn disconnect_keeps_well_formed(m: ManagerView)
    requires
        m.wf(),
    ensures
        m.after_disconnect().wf(),
{
    let n = m.after_disconnect();
    journal_carries_over(m, n);
}

/// Every operation keeps the state well formed.
pub proof fn step_keeps_well_formed(m: ManagerView, op: Operation)
    requires
        m.wf(),
    ensures
        m.apply(op).wf(),
{
    match op {
        Operation::OpenSession { mode, reply } => open_session_keeps_well_formed(m, mode, reply),
        Operation::OpenTransaction { session, kind, options } => open_transaction_keeps_well_formed(
            m,
            session,
            kind,
            options,
        ),
        Operation::Query { transaction, kind, text, reply } => query_keeps_well_formed(
            m,
            transaction,
            kind,
            text,
            reply,
        ),
        Operation::Commit { transaction, reply } => commit_keeps_well_formed(m, transaction, reply),
        Operation::Close { transaction } => close_keeps_well_formed(m, transaction),
        Operation::CloseSession { session } => close_session_keeps_well_formed(m, session),
        Operation::Disconnect => disconnect_keeps_well_formed(m),
    }
}

/// Every state that a sequence of operations reaches from a well-formed
/// state is well formed.
pub proof fn run_keeps_well_formed(m: ManagerView, ops: Seq<Operation>)
    requires
        m.wf(),
    ensures
        m.run(ops).wf(),
    decreases ops.len(),
{
    if ops.len() > 0 {
        run_keeps_well_formed(m, ops.drop_last());
        step_keeps_well_formed(m.run(ops.drop_last()), ops.last());
    }
}

/// What one operation never undoes: sessions and transactions keep their
/// numbers, the journal keeps what it holds, a closed session stays closed,
/// and a transaction that has ended stays exactly as it ended.
pub proof fn step_is_monotone(m: ManagerView, op: Operation)
    requires
        m.wf(),
    ensures
        !m.connected ==> !m.apply(op).connected,
        m.sessions.len() <= m.apply(op).sessions.len(),
        m.transactions.len() <= m.apply(op).transactions.len(),
        m.journal.len() <= m.apply(op).journal.len(),
        forall|i: int| 0 <= i < m.journal.len() ==> m.apply(op).journal[i] == m.journal[i],
        forall|s: int|
            0 <= s < m.sessions.len() && !m.sessions[s].open ==> !(#[trigger] m.apply(op).sessions[s]).open,
        forall|t: int|
            0 <= t < m.transactions.len() && m.transactions[t].state.terminal() ==> #[trigger] m.apply(
                op,
            ).transactions[t] == m.transactions[t],
        forall|t: int|
            0 <= t < m.transactions.len() ==> (#[trigger] m.apply(op).transactions[t]).snapshot
                == m.transactions[t].snapshot && m.apply(op).transactions[t].options
                == m.transactions[t].options && m.apply(op).transactions[t].kind == m.transactions[t].kind
                && m.apply(op).transactions[t].session == m.transactions[t].session,
{
}

/// The same of a sequence of operations.
pub proof fn run_is_monotone(m: ManagerView, ops: Seq<Operation>)
    requires
        m.wf(),
    ensures
        !m.connected ==> !m.run(ops).connected,
        m.sessions.len() <= m.run(ops).sessions.len(),
        m.transactions.len() <= m.run(ops).transactions.len(),
        m.journal.len() <= m.run(ops).journal.len(),
        forall|i: int| 0 <= i < m.journal.len() ==> m.run(ops).journal[i] == m.journal[i],
        forall|s: int|
            0 <= s < m.sessions.len() && !m.sessions[s].open ==> !(#[trigger] m.run(ops).sessions[s]).open,
        forall|t: int|
            0 <= t < m.transactions.len() && m.transactions[t].state.terminal() ==> #[trigger] m.run(
                ops,
            ).transactions[t] == m.transactions[t],
        forall|t: int|
            0 <= t < m.transactions.len() ==> (#[trigger] m.run(ops).transactions[t]).snapshot
                == m.transactions[t].snapshot && m.run(ops).transactions[t].options
                == m.transactions[t].options && m.run(ops).transactions[t].kind == m.transactions[t].kind
                && m.run(ops).transactions[t].session == m.transactions[t].session,
    decreases ops.len(),
{
    if ops.len() > 0 {
        let before = m.run(ops.drop_last());
        run_is_monotone(m, ops.drop_last());
        run_keeps_well_formed(m, ops.drop_last());
        step_is_monotone(before, ops.last());
        assert forall|t: int|
            0 <= t < m.transactions.len() && m.transactions[t].state.terminal() implies #[trigger] m.run(
            ops,
        ).transactions[t] == m.transactions[t] by {
            assert(before.transactions[t] == m.transactions[t]);
        }
    }
}

/// Read-after-commit. Once the commit of a transaction has succeeded, then
/// whatever is done next, a transaction opened after that observes it, and
/// the writes that the transaction holds are still those that it made.
pub proof fn read_after_commit(
    m: ManagerView,
    writer: int,
    later: Seq<Operation>,
    session: int,
    kind: TransactionType,
    options: Options,
)
    requires
        m.wf(),
        m.transaction_open(writer),
    ensures
        ({
            let committed = m.after_commit(writer, CommitReply::Committed);
            let now = committed.run(later);
            let reader = now.transactions.len() as int;
            let then = now.after_open_transaction(session, kind, options);
            &&& m.commit_error(writer, CommitReply::Committed) is None
            &&& then.transactions[writer].state is Committed
            &&& then.transactions[writer].writes == m.transactions[writer].writes
            &&& now.session_open(session) ==> then.transaction_open(reader) && then.observes(reader, writer)
        }),
{
    let committed = m.after_commit(writer, CommitReply::Committed);
    let now = committed.run(later);
    let then = now.after_open_transaction(session, kind, options);
    commit_keeps_well_formed(m, writer, CommitReply::Committed);
    run_keeps_well_formed(committed, later);
    run_is_monotone(committed, later);
    assert(committed.transactions[writer].state.terminal());
    assert(now.transactions[writer] == committed.transactions[writer]);
    if now.session_open(session) {
        assert(now.in_journal(writer));
        let i = choose|i: int| 0 <= i < now.journal.len() && now.journal[i] == writer;
        assert(then.journal[i] == writer);
    }
}

/// The writes that an open transaction holds after a sequence of
/// queries are those it held before and then those that the queries
/// applied, in their order. The transaction is still open, and nothing
/// else has changed.
pub proof fn queries_add_their_writes(m: ManagerView, t: int, calls: Seq<QueryCall>)
    requires
        m.wf(),
        m.transaction_open(t),
    ensures
        ({
            let n = m.after_queries(t, calls);
            &&& n.wf()
            &&& n.transaction_open(t)
            &&& n.transactions[t].writes == m.transactions[t].writes + applied_writes(
                m.transactions[t].kind,
                calls,
            )
            &&& n.transactions[t].kind == m.transactions[t].kind
            &&& n.transactions.len() == m.transactions.len()
            &&& forall|u: int| 0 <= u < m.transactions.len() && u != t ==> n.transactions[u] == m.transactions[u]
            &&& n.journal == m.journal
            &&& n.sessions == m.sessions
            &&& n.connected == m.connected
        }),
    decreases calls.len(),
{
    if calls.len() > 0 {
        let before = m.after_queries(t, calls.drop_last());
        let call = calls.last();
        queries_add_their_writes(m, t, calls.drop_last());
        query_keeps_well_formed(before, t, call.kind, call.text, call.reply);
        let n = m.after_queries(t, calls);
        assert(n.transactions[t].writes =~= m.transactions[t].writes + applied_writes(
            m.transactions[t].kind,
            calls,
        ));
    } else {
        assert(m.transactions[t].writes =~= m.transactions[t].writes + applied_writes(
            m.transactions[t].kind,
            calls,
        ));
    }
}

/// Open, query, commit, read. A transaction is opened, runs any
/// queries, and is committed with success; anything may be done after
/// that. A transaction opened then observes the committed one, which
/// holds exactly the writes that its queries applied.
pub proof fn committed_writes_are_observed(
    m: ManagerView,
    session: int,
    kind: TransactionType,
    options: Options,
    calls: Seq<QueryCall>,
    later: Seq<Operation>,
    reader_session: int,
    reader_options: Options,
)
    requires
        m.wf(),
        m.session_open(session),
    ensures
        ({
            let writer = m.transactions.len() as int;
            let worked = m.after_open_transaction(session, kind, options).after_queries(writer, calls);
            let now = worked.after_commit(writer, CommitReply::Committed).run(later);
            let reader = now.transactions.len() as int;
            let then = now.after_open_transaction(reader_session, TransactionType::Read, reader_options);
            &&& worked.commit_error(writer, CommitReply::Committed) is None
            &&& then.transactions[writer].state is Committed
            &&& then.transactions[writer].writes == applied_writes(kind, calls)
            &&& now.session_open(reader_session) ==> then.transaction_open(reader) && then.observes(
                reader,
                writer,
            )
        }),
{
    let writer = m.transactions.len() as int;
    let opened = m.after_open_transaction(session, kind, options);
    open_transaction_keeps_well_formed(m, session, kind, options);
    queries_add_their_writes(opened, writer, calls);
    let worked = opened.after_queries(writer, calls);
    assert(worked.transactions[writer].writes =~= applied_writes(kind, calls));
    read_after_commit(worked, writer, later, reader_session, TransactionType::Read, reader_options);
}

/// A transaction keeps the options it was opened with: whatever is done
/// next, a query that the manager lets through carries exactly these.
pub proof fn options_are_kept(
    m: ManagerView,
    session: int,
    kind: TransactionType,
    options: Options,
    later: Seq<Operation>,
)
    requires
        m.wf(),
        m.session_open(session),
    ensures
        ({
            let opened = m.after_open_transaction(session, kind, options);
            let t = m.transactions.len() as int;
            &&& opened.transaction_open(t)
            &&& opened.run(later).transactions[t].options == options
            &&& opened.run(later).transactions[t].kind == kind
            &&& opened.run(later).transactions[t].session == session
        }),
{
    let opened = m.after_open_transaction(session, kind, options);
    open_transaction_keeps_well_formed(m, session, kind, options);
    run_is_monotone(opened, later);
}

/// A read transaction never holds a write, and so affects no row.
pub proof fn read_transaction_holds_no_write(m: ManagerView, t: int)
    requires
        m.wf(),
        0 <= t < m.transactions.len(),
        m.transactions[t].kind is Read,
    ensures
        m.transactions[t].writes.len() == 0,
        m.transactions[t].affected() == 0,
{
}

/// A write inside a read transaction fails with `IllegalWrite`, whatever
/// the server would have said, and changes nothing: the transaction is
/// still open, and the manager refuses no read inside it.
pub proof fn illegal_write_leaves_transaction_usable(
    m: ManagerView,
    t: int,
    write: QueryKind,
    text: Seq<char>,
    reply: QueryReply,
    read: QueryKind,
    next_text: Seq<char>,
    next_reply: QueryReply,
)
    requires
        m.transaction_open(t),
        m.transactions[t].kind is Read,
        write.writes(),
        !read.writes(),
    ensures
        m.query_error(t, write, reply) == Some(ErrorKind::IllegalWrite),
        m.after_query(t, write, text, reply) == m,
        m.after_query(t, write, text, reply).query_error(t, read, next_reply) == next_reply.failure(),
        m.after_query(t, write, text, reply).after_query(t, read, next_text, next_reply) == m,
{
}

/// Closing a transaction a second time changes nothing.
pub proof fn close_is_idempotent(m: ManagerView, t: int)
    ensures
        m.after_close(t).after_close(t) == m.after_close(t),
{
}

/// Closing a transaction after its commit, whatever the reply to the
/// commit was, changes nothing.
pub proof fn close_after_commit_changes_nothing(m: ManagerView, t: int, reply: CommitReply)
    ensures
        m.after_commit(t, reply).after_close(t) == m.after_commit(t, reply),
{
}

/// A commit and a close both end the transaction, if it was open.
pub proof fn commit_and_close_end_the_transaction(m: ManagerView, t: int, reply: CommitReply)
    requires
        m.transaction_open(t),
    ensures
        m.after_commit(t, reply).transactions[t].state == (if reply is Committed {
            crate::model::TransactionState::Committed
        } else {
            crate::model::TransactionState::Closed
        }),
        m.after_close(t).transactions[t].state is Closed,
        !m.after_commit(t, reply).transaction_open(t),
        !m.after_close(t).transaction_open(t),
{
}

/// Once a transaction has ended, then whatever is done next, a query or a
/// commit on it fails with `TransactionClosed` and changes nothing. So no
/// transaction is ever committed twice, and none comes back to life.
pub proof fn ended_transaction_refuses(
    m: ManagerView,
    t: int,
    later: Seq<Operation>,
    kind: QueryKind,
    text: Seq<char>,
    query_reply: QueryReply,
    commit_reply: CommitReply,
)
    requires
        m.wf(),
        0 <= t < m.transactions.len(),
        m.transactions[t].state.terminal(),
    ensures
        ({
            let now = m.run(later);
            &&& now.transactions[t] == m.transactions[t]
            &&& now.query_error(t, kind, query_reply) == Some(ErrorKind::TransactionClosed)
            &&& now.after_query(t, kind, text, query_reply) == now
            &&& now.commit_error(t, commit_reply) == Some(ErrorKind::TransactionClosed)
            &&& now.after_commit(t, commit_reply) == now
            &&& now.after_close(t) == now
        }),
{
    run_is_monotone(m, later);
}

/// A transaction that the manager never opened is treated as one that
/// has ended.
pub proof fn unknown_transaction_refuses(
    m: ManagerView,
    t: int,
    kind: QueryKind,
    query_reply: QueryReply,
    commit_reply: CommitReply,
)
    requires
        !(0 <= t < m.transactions.len()),
    ensures
        m.query_error(t, kind, query_reply) == Some(ErrorKind::TransactionClosed),
        m.commit_error(t, commit_reply) == Some(ErrorKind::TransactionClosed),
        m.after_close(t) == m,
{
}

/// Once a session is closed, then whatever is done next, it stays closed,
/// no transaction can be opened in it, and none of its transactions is open.
pub proof fn closed_session_opens_nothing(
    m: ManagerView,
    s: int,
    later: Seq<Operation>,
    kind: TransactionType,
    options: Options,
)
    requires
        m.wf(),
        0 <= s < m.sessions.len(),
        !m.sessions[s].open,
    ensures
        ({
            let now = m.run(later);
            &&& !now.session_open(s)
            &&& now.after_open_transaction(s, kind, options) == now
            &&& forall|t: int|
                0 <= t < now.transactions.len() && (#[trigger] now.transactions[t]).session == s
                    ==> !now.transaction_open(t)
        }),
{
    run_is_monotone(m, later);
    run_keeps_well_formed(m, later);
}

/// Once the connection is closed, then whatever is done next, no
/// session and no transaction is open, and none can be opened.
pub proof fn closed_connection_opens_nothing(
    m: ManagerView,
    later: Seq<Operation>,
    mode: SessionType,
    reply: SessionReply,
)
    requires
        m.wf(),
    ensures
        ({
            let now = m.after_disconnect().run(later);
            &&& !now.connected
            &&& forall|s: int| !now.session_open(s)
            &&& forall|t: int| !now.transaction_open(t)
            &&& now.open_session_error(reply) == Some(ErrorKind::ConnectionError)
            &&& now.after_open_session(mode, reply) == now
        }),
{
    let closed = m.after_disconnect();
    disconnect_keeps_well_formed(m);
    run_is_monotone(closed, later);
    run_keeps_well_formed(closed, later);
    let now = closed.run(later);
    assert forall|s: int| !now.session_open(s) by {
        if now.session_open(s) {
            assert(now.sessions[s].open);
        }
    }
    assert forall|t: int| !now.transaction_open(t) by {
        if now.transaction_open(t) {
            assert(now.transactions[t].state is Open);
            assert(now.sessions[now.transactions[t].session].open);
        }
    }
}

/// Closing a session ends every transaction that it owns and leaves the
/// others as they are.
pub proof fn close_session_ends_its_transactions(m: ManagerView, s: int)
    requires
        m.wf(),
        m.session_open(s),
    ensures
        ({
            let now = m.after_close_session(s);
            &&& !now.session_open(s)
            &&& now.transactions.len() == m.transactions.len()
            &&& forall|t: int|
                0 <= t < m.transactions.len() && m.transactions[t].session == s ==> !now.transaction_open(t)
            &&& forall|t: int|
                0 <= t < m.transactions.len() && m.transactions[t].session != s
                    ==> #[trigger] now.transactions[t] == m.transactions[t]
        }),
{
}

} // verus!
