use tx_lifecycle::answer::{Concept, Row, Value};
use tx_lifecycle::model::{SessionType, TransactionType};
use tx_lifecycle::options::Options;
use tx_lifecycle::query::QueryKind;
use tx_lifecycle::sample::error::AppError;
use tx_lifecycle::sample::files::{
    delete_file, enumerate, expected_count, fetch_all_users, get_files_by_user, insert_new_user, queries,
    test_initial_database, update_filepath, Task, COUNT_USERS, FETCH_ALL_USERS,
};
use tx_lifecycle::sample::step::{Ending, Request, Step};

fn send<T>(transaction: TransactionType, options: Options, kind: QueryKind, text: String) -> Step<T> {
    Step::Send(Request { session: SessionType::Data, transaction, options, kind, text })
}

fn path(name: &str) -> Row {
    let mut row = Row::new();
    row.bind(
        "fp".to_string(),
        Concept::Attribute { type_label: "path".to_string(), value: Value::String(name.to_string()) },
    );
    row
}

fn rows(n: usize) -> Vec<Row> {
    (0..n).map(|_| Row::new()).collect()
}

#[test]
fn files_fetch_all_users_needs_a_user() {
    assert_eq!(FETCH_ALL_USERS, "match $u isa user; fetch $u: full-name, email;");
    assert_eq!(
        fetch_all_users(None),
        send(
            TransactionType::Read,
            Options::new(),
            QueryKind::Fetch,
            "match $u isa user; fetch $u: full-name, email;".to_string()
        )
    );
    let found = vec!["{}".to_string()];
    assert_eq!(fetch_all_users(Some(found.clone())), Step::Finish { ending: Ending::Close, result: Ok(found) });
    assert_eq!(
        fetch_all_users(Some(vec![])),
        Step::Finish { ending: Ending::Close, result: Err(AppError::NoUsersFound) }
    );
}

#[test]
fn files_insert_new_user_commits_what_was_inserted() {
    let expected = format!(
        "insert $p isa person, has full-name $fn, has email $e; $fn == '{}'; $e == '{}';",
        "Jack Keeper", "jk@vaticle.com"
    );
    assert_eq!(
        insert_new_user("Jack Keeper", "jk@vaticle.com", None),
        send(TransactionType::Write, Options::new(), QueryKind::Insert, expected)
    );
    assert_eq!(
        insert_new_user("Jack Keeper", "jk@vaticle.com", Some(rows(1))),
        Step::Finish { ending: Ending::Commit, result: Ok(rows(1)) }
    );
    let none = insert_new_user("Jack Keeper", "jk@vaticle.com", Some(rows(0)));
    assert_eq!(none, Step::Finish { ending: Ending::Close, result: Err(AppError::NoUsersFound) });
}

#[test]
fn files_enumerate_numbers_from_zero() {
    assert_eq!(enumerate(vec![]), vec![]);
    assert_eq!(
        enumerate(vec![path("a"), path("b"), path("c")]),
        vec![(0, path("a")), (1, path("b")), (2, path("c"))]
    );
}

#[test]
fn files_get_files_by_user_asks_with_the_inference_wanted() {
    for inference in [false, true] {
        let options = Options::new().infer(inference);
        assert_eq!(
            get_files_by_user("Kevin Morrison", inference, None, None),
            send(
                TransactionType::Read,
                options,
                QueryKind::Match,
                format!("match $u isa user, has full-name '{}'; get;", "Kevin Morrison")
            )
        );
        let expected = format!(
            "match
                $fn == '{}';
                $u isa user, has full-name $fn;
                $p($u, $pa) isa permission;
                $o isa object, has path $fp;
                $pa($o, $va) isa access;
                $va isa action, has name 'view_file';
                get $fp; sort $fp asc;
                ",
            "Kevin Morrison"
        );
        assert_eq!(
            get_files_by_user("Kevin Morrison", inference, Some(rows(1)), None),
            send(TransactionType::Read, options, QueryKind::Match, expected)
        );
    }
}

#[test]
fn files_get_files_by_user_needs_exactly_one_user() {
    let none = get_files_by_user("Nobody", true, Some(rows(0)), None);
    assert_eq!(none, Step::Finish { ending: Ending::Close, result: Err(AppError::UnknownUser) });
    assert_eq!(AppError::UnknownUser.message(), "No users found with that name.");
    for found in [2usize, 3] {
        let many = get_files_by_user("Twin", true, Some(rows(found)), Some(vec![path("x")]));
        assert_eq!(many, Step::Finish { ending: Ending::Close, result: Err(AppError::AmbiguousUser) });
    }
    assert_eq!(AppError::AmbiguousUser.message(), "Found more than one user with that name.");
}

#[test]
fn files_get_files_by_user_numbers_the_files() {
    assert_eq!(
        get_files_by_user("Kevin Morrison", true, Some(rows(1)), Some(vec![path("a.java"), path("b.java")])),
        Step::Finish { ending: Ending::Close, result: Ok(vec![(0, path("a.java")), (1, path("b.java"))]) }
    );
    assert_eq!(
        get_files_by_user("Kevin Morrison", false, Some(rows(1)), Some(vec![])),
        Step::Finish { ending: Ending::Close, result: Ok(vec![]) }
    );
}

#[test]
fn files_update_filepath_commits_only_a_change() {
    let expected = format!(
        "match
            $f isa file, has path $old_path;
            $old_path = '{old}';
            delete
            $f has $old_path;
            insert
            $f has path $new_path;
            $new_path = '{new}';",
        old = "lzfkn.java",
        new = "lzfkn2.java"
    );
    assert_eq!(
        update_filepath("lzfkn.java", "lzfkn2.java", None),
        send(TransactionType::Write, Options::new(), QueryKind::Update, expected)
    );
    assert_eq!(
        update_filepath("lzfkn.java", "lzfkn2.java", Some(rows(1))),
        Step::Finish { ending: Ending::Commit, result: Ok(rows(1)) }
    );
    assert_eq!(
        update_filepath("lzfkn.java", "lzfkn2.java", Some(rows(0))),
        Step::Finish { ending: Ending::Close, result: Ok(rows(0)) }
    );
}

#[test]
fn files_delete_file_looks_the_file_up_first() {
    let expected = format!(
        "match
            $f isa file, has path '{}';
            get;",
        "lzfkn2.java"
    );
    assert_eq!(
        delete_file("lzfkn2.java", None, None),
        send(TransactionType::Write, Options::new(), QueryKind::Match, expected.clone())
    );
    assert_eq!(
        delete_file("lzfkn2.java", None, Some(true)),
        send(TransactionType::Write, Options::new(), QueryKind::Match, expected)
    );
}

#[test]
fn files_delete_file_needs_exactly_one_file() {
    for found in [0usize, 2, 10] {
        match delete_file("lzfkn2.java", Some(rows(found)), None) {
            Step::Finish { ending: Ending::Close, result: Err(error) } => {
                assert_eq!(error, AppError::FileCount { found });
                assert_eq!(error.message(), format!("Wrong number of files to delete: {}", found));
            }
            other => panic!("an error was expected, not {:?}", other),
        }
    }
}

#[test]
fn files_delete_file_reports_what_the_server_did() {
    let path = "lzfkn2.java";
    let expected = format!(
        "match
                $f isa file, has path '{path}';
                delete
                $f isa file;
                "
    );
    assert_eq!(
        delete_file(path, Some(rows(1)), None),
        send(TransactionType::Write, Options::new(), QueryKind::Delete, expected)
    );
    assert_eq!(
        delete_file(path, Some(rows(1)), Some(true)),
        Step::Finish { ending: Ending::Close, result: Ok(()) }
    );
    let failed = delete_file(path, Some(rows(1)), Some(false));
    assert_eq!(failed, Step::Finish { ending: Ending::Close, result: Err(AppError::DeleteFailed) });
    assert_eq!(AppError::DeleteFailed.message(), "Error: Failed to delete.");
}

#[test]
fn files_test_initial_database_wants_three_users() {
    assert_eq!(COUNT_USERS, "match $u isa user; get $u; count;");
    assert_eq!(
        test_initial_database(None),
        send(
            TransactionType::Read,
            Options::new(),
            QueryKind::Aggregate,
            "match $u isa user; get $u; count;".to_string()
        )
    );
    assert_eq!(
        test_initial_database(Some(Some(Value::Long(3)))),
        Step::Finish { ending: Ending::Close, result: Ok(true) }
    );
    for count in [0i64, 2, 4, -3] {
        assert_eq!(
            test_initial_database(Some(Some(Value::Long(count)))),
            Step::Finish { ending: Ending::Close, result: Err(AppError::TestFailed) }
        );
    }
    assert_eq!(AppError::TestFailed.message(), "Test failed. Terminating...");
}

#[test]
fn files_test_initial_database_needs_an_integer() {
    for answer in [
        None,
        Some(Value::String("3".to_string())),
        Some(Value::Boolean(true)),
        Some(Value::Double(3.0f64.to_bits())),
        Some(Value::DateTime(3)),
    ] {
        assert_eq!(
            test_initial_database(Some(answer)),
            Step::Finish { ending: Ending::Close, result: Err(AppError::NoTestAnswer) }
        );
    }
    assert_eq!(AppError::NoTestAnswer.message(), "Error: unexpected test query response.");
}

#[test]
fn files_queries_runs_six_tasks() {
    assert_eq!(queries(0, None), Ok(Some(Task::FetchAllUsers)));
    assert_eq!(
        queries(1, Some(Ok(3))),
        Ok(Some(Task::InsertNewUser { name: "Jack Keeper".to_string(), email: "jk@vaticle.com".to_string() }))
    );
    assert_eq!(
        queries(2, Some(Ok(1))),
        Ok(Some(Task::GetFilesByUser { name: "Kevin Morrison".to_string(), inference: false }))
    );
    assert_eq!(
        queries(3, Some(Ok(0))),
        Ok(Some(Task::GetFilesByUser { name: "Kevin Morrison".to_string(), inference: true }))
    );
    assert_eq!(
        queries(4, Some(Ok(10))),
        Ok(Some(Task::UpdateFilepath { old_path: "lzfkn.java".to_string(), new_path: "lzfkn2.java".to_string() }))
    );
    assert_eq!(queries(5, Some(Ok(1))), Ok(Some(Task::DeleteFile { path: "lzfkn2.java".to_string() })));
    assert_eq!(queries(6, Some(Ok(0))), Ok(None));
    assert_eq!(queries(7, None), Ok(None));
    let expected = [Some(3usize), Some(1), Some(0), Some(10), Some(1), None, None];
    for (place, count) in expected.iter().enumerate() {
        assert_eq!(expected_count(place), *count);
    }
}

#[test]
fn files_queries_ends_with_the_first_failure() {
    for done in 1..=5usize {
        assert_eq!(queries(done, Some(Err(AppError::NoUsersFound))), Err(AppError::NoUsersFound));
        assert_eq!(
            queries(done, Some(Err(AppError::Remote { message: "down".to_string() }))),
            Err(AppError::Remote { message: "down".to_string() })
        );
    }
}

#[test]
fn files_queries_hides_the_cause_of_the_last_failure() {
    assert_eq!(queries(6, Some(Err(AppError::DeleteFailed))), Err(AppError::Terminated));
    assert_eq!(queries(6, Some(Err(AppError::FileCount { found: 2 }))), Err(AppError::Terminated));
    assert_eq!(AppError::Terminated.message(), "Application terminated unexpectedly");
}
