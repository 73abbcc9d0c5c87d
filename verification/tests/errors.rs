use tx_lifecycle::error::{ErrorClass, ErrorKind};
use tx_lifecycle::model::{TransactionState, TransactionType};
use tx_lifecycle::options::Options;
use tx_lifecycle::query::{QueryKind, ResponseShape};
use tx_lifecycle::reply::{CommitReply, QueryReply, SessionReply};

#[test]
fn every_error_has_its_class() {
    let table = [
        (ErrorKind::ConnectionError, ErrorClass::Connection, "ConnectionError"),
        (ErrorKind::DatabaseNotFound, ErrorClass::CallerLogic, "DatabaseNotFound"),
        (ErrorKind::SessionClosed, ErrorClass::CallerLogic, "SessionClosed"),
        (ErrorKind::IllegalWrite, ErrorClass::CallerLogic, "IllegalWrite"),
        (ErrorKind::TransactionClosed, ErrorClass::CallerLogic, "TransactionClosed"),
        (ErrorKind::QuerySyntaxError, ErrorClass::QueryRejected, "QuerySyntaxError"),
        (ErrorKind::QueryExecutionError, ErrorClass::QueryRejected, "QueryExecutionError"),
        (ErrorKind::CommitError, ErrorClass::Commit, "CommitError"),
        (ErrorKind::Timeout, ErrorClass::Timeout, "Timeout"),
    ];
    for (kind, class, name) in table {
        assert_eq!(kind.class(), class);
        assert_eq!(kind.name(), name);
        assert_eq!(kind.is_fatal(), class == ErrorClass::Connection);
        assert_eq!(kind.is_caller_logic(), class == ErrorClass::CallerLogic);
        assert_eq!(
            kind.is_locally_recoverable(),
            class == ErrorClass::CallerLogic || class == ErrorClass::QueryRejected
        );
    }
}

#[test]
fn only_a_lost_connection_is_fatal() {
    assert!(ErrorKind::ConnectionError.is_fatal());
    assert!(!ErrorKind::ConnectionError.is_locally_recoverable());
    assert!(!ErrorKind::CommitError.is_fatal());
    assert!(!ErrorKind::CommitError.is_locally_recoverable());
    assert!(!ErrorKind::Timeout.is_locally_recoverable());
    assert!(ErrorKind::IllegalWrite.is_locally_recoverable());
    assert!(ErrorKind::QuerySyntaxError.is_locally_recoverable());
}

#[test]
fn options_are_off_until_set() {
    assert_eq!(Options::new(), Options { infer: false, explain: false });
    assert_eq!(Options::default(), Options::new());
    assert_eq!(Options::new().infer(true), Options { infer: true, explain: false });
    assert_eq!(Options::new().explain(true), Options { infer: false, explain: true });
    assert_eq!(Options::new().infer(true).explain(true).infer(false), Options { infer: false, explain: true });
}

#[test]
fn each_kind_of_query_has_its_shape() {
    let table = [
        (QueryKind::Define, true, ResponseShape::Done),
        (QueryKind::Undefine, true, ResponseShape::Done),
        (QueryKind::Insert, true, ResponseShape::Rows),
        (QueryKind::Delete, true, ResponseShape::Rows),
        (QueryKind::Update, true, ResponseShape::Rows),
        (QueryKind::Match, false, ResponseShape::Rows),
        (QueryKind::Fetch, false, ResponseShape::Documents),
        (QueryKind::Aggregate, false, ResponseShape::Scalar),
    ];
    for (kind, writes, shape) in table {
        assert_eq!(kind.is_write(), writes);
        assert_eq!(kind.shape(), shape);
    }
}

#[test]
fn only_read_transactions_may_be_retried() {
    assert!(TransactionType::Read.may_retry());
    assert!(!TransactionType::Write.may_retry());
    assert!(!TransactionType::Schema.may_retry());
    assert!(TransactionType::Read.is_read_only());
    assert!(!TransactionType::Write.is_read_only());
    assert!(!TransactionType::Schema.is_read_only());
}

#[test]
fn committed_and_closed_are_final() {
    assert!(!TransactionState::Open.is_terminal());
    assert!(TransactionState::Committed.is_terminal());
    assert!(TransactionState::Closed.is_terminal());
}

#[test]
fn each_reply_names_its_error() {
    assert_eq!(SessionReply::Opened.error(), None);
    assert_eq!(SessionReply::DatabaseNotFound.error(), Some(ErrorKind::DatabaseNotFound));
    assert_eq!(SessionReply::Unreachable.error(), Some(ErrorKind::ConnectionError));
    assert_eq!(SessionReply::TimedOut.error(), Some(ErrorKind::Timeout));
    assert_eq!(CommitReply::Committed.error(), None);
    assert_eq!(CommitReply::Rejected.error(), Some(ErrorKind::CommitError));
    assert_eq!(CommitReply::Unreachable.error(), Some(ErrorKind::ConnectionError));
    assert_eq!(CommitReply::TimedOut.error(), Some(ErrorKind::Timeout));
    assert_eq!(QueryReply::SyntaxError.error(), Some(ErrorKind::QuerySyntaxError));
    assert_eq!(QueryReply::ExecutionError.error(), Some(ErrorKind::QueryExecutionError));
    assert_eq!(QueryReply::Unreachable.error(), Some(ErrorKind::ConnectionError));
    assert_eq!(QueryReply::TimedOut.error(), Some(ErrorKind::Timeout));
    assert_eq!(QueryReply::Done.error(), None);
    assert_eq!(QueryReply::Rows(vec![]).error(), None);
}

#[test]
fn a_lost_commit_has_no_known_outcome() {
    assert!(!CommitReply::Committed.is_outcome_unknown());
    assert!(!CommitReply::Rejected.is_outcome_unknown());
    assert!(CommitReply::Unreachable.is_outcome_unknown());
    assert!(CommitReply::TimedOut.is_outcome_unknown());
}

#[test]
fn a_reply_has_a_shape_and_a_size() {
    assert_eq!(QueryReply::Done.shape(), Some(ResponseShape::Done));
    assert_eq!(QueryReply::Done.rows(), 0);
    let documents = QueryReply::Documents(vec!["{}".to_string(), "{}".to_string()]);
    assert_eq!(documents.shape(), Some(ResponseShape::Documents));
    assert_eq!(documents.rows(), 2);
    assert_eq!(QueryReply::Scalar(None).shape(), Some(ResponseShape::Scalar));
    assert_eq!(QueryReply::Scalar(None).rows(), 0);
    assert_eq!(QueryReply::SyntaxError.shape(), None);
    assert_eq!(QueryReply::TimedOut.rows(), 0);
}
