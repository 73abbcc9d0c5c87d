use tx_lifecycle::answer::Row;
use tx_lifecycle::model::{SessionType, TransactionType};
use tx_lifecycle::options::Options;
use tx_lifecycle::query::QueryKind;
use tx_lifecycle::sample::contacts::{
    delete_user_by_email, expected_count, fetch_all_users, get_all_relatives_by_email,
    get_direct_relatives_by_email, insert_new_user, queries, update_phone_by_email, validate_data, Task,
    COUNT_USERS, EXPECTED_USERS, FETCH_ALL_USERS, TASKS,
};
use tx_lifecycle::sample::error::AppError;
use tx_lifecycle::sample::step::{Ending, Request, Step};

fn send<T>(transaction: TransactionType, kind: QueryKind, text: String) -> Step<T> {
    Step::Send(Request { session: SessionType::Data, transaction, options: Options::new(), kind, text })
}

fn rows(n: usize) -> Vec<Row> {
    (0..n).map(|_| Row::new()).collect()
}

#[test]
fn contacts_fetch_all_users_sends_the_fetch() {
    assert_eq!(
        fetch_all_users(None),
        send(
            TransactionType::Read,
            QueryKind::Fetch,
            "match $u isa user; fetch { 'phone': $u.phone, 'email': $u.email };".to_string()
        )
    );
    assert_eq!(FETCH_ALL_USERS, "match $u isa user; fetch { 'phone': $u.phone, 'email': $u.email };");
}

#[test]
fn contacts_fetch_all_users_needs_a_user() {
    let found = vec!["{\"phone\": \"1\"}".to_string(), "{\"phone\": \"2\"}".to_string()];
    assert_eq!(
        fetch_all_users(Some(found.clone())),
        Step::Finish { ending: Ending::Close, result: Ok(found) }
    );
    let none = fetch_all_users(Some(vec![]));
    assert_eq!(none, Step::Finish { ending: Ending::Close, result: Err(AppError::NoUsersFound) });
    match none {
        Step::Finish { result: Err(error), .. } => {
            assert_eq!(error.message(), "Error: No users found in a database.")
        }
        other => panic!("an error was expected, not {:?}", other),
    }
}

#[test]
fn contacts_insert_new_user_sends_the_insert() {
    let expected = format!(
        "insert $u isa user, has $e, has $p, has $username; $e isa email '{}'; $p isa phone '{}'; $username isa username '{}';",
        "k.koolidge@typedb.com", "17778889999", "k-koolidge"
    );
    assert_eq!(
        insert_new_user("k.koolidge@typedb.com", "17778889999", "k-koolidge", None),
        send(TransactionType::Write, QueryKind::Insert, expected)
    );
}

#[test]
fn contacts_insert_new_user_commits_what_was_inserted() {
    assert_eq!(
        insert_new_user("e", "p", "u", Some(rows(1))),
        Step::Finish { ending: Ending::Commit, result: Ok(rows(1)) }
    );
    let none = insert_new_user("e", "p", "u", Some(rows(0)));
    assert_eq!(none, Step::Finish { ending: Ending::Close, result: Err(AppError::NoUsersCreated) });
    assert_eq!(AppError::NoUsersCreated.message(), "Error: No new users created.");
}

#[test]
fn contacts_relatives_look_the_user_up_first() {
    let expected = format!("match $u isa user, has email '{}';", "kevin.morrison@typedb.com");
    assert_eq!(
        get_direct_relatives_by_email("kevin.morrison@typedb.com", None, None),
        send(TransactionType::Read, QueryKind::Match, expected.clone())
    );
    assert_eq!(
        get_all_relatives_by_email("kevin.morrison@typedb.com", None, None),
        send(TransactionType::Read, QueryKind::Match, expected.clone())
    );
    assert_eq!(
        get_all_relatives_by_email("kevin.morrison@typedb.com", None, Some(rows(2))),
        send(TransactionType::Read, QueryKind::Match, expected)
    );
}

#[test]
fn contacts_relatives_need_exactly_one_user() {
    for found in [0usize, 2, 3, 11] {
        let expected = format!("Found {} users with email {}, expected 1.", found, "a@b.c");
        for step in [
            get_direct_relatives_by_email("a@b.c", Some(rows(found)), None),
            get_all_relatives_by_email("a@b.c", Some(rows(found)), None),
            get_direct_relatives_by_email("a@b.c", Some(rows(found)), Some(rows(1))),
        ] {
            match step {
                Step::Finish { ending, result: Err(error) } => {
                    assert_eq!(ending, Ending::Close);
                    assert_eq!(error, AppError::UserCount { found, email: "a@b.c".to_string() });
                    assert_eq!(error.message(), expected);
                }
                other => panic!("an error was expected, not {:?}", other),
            }
        }
    }
}

#[test]
fn contacts_direct_relatives_sends_the_search() {
    let expected = format!(
        "match
                $e == '{}';
                $u isa user, has email $e;
                $family isa family ($u, $relative);
                $relative has username $username;
                not {{ $u is $relative; }};
                select $username;
                sort $username asc;
                ",
        "kevin.morrison@typedb.com"
    );
    assert_eq!(
        get_direct_relatives_by_email("kevin.morrison@typedb.com", Some(rows(1)), None),
        send(TransactionType::Read, QueryKind::Match, expected)
    );
    assert_eq!(
        get_direct_relatives_by_email("kevin.morrison@typedb.com", Some(rows(1)), Some(rows(1))),
        Step::Finish { ending: Ending::Close, result: Ok(rows(1)) }
    );
    assert_eq!(
        get_direct_relatives_by_email("kevin.morrison@typedb.com", Some(rows(1)), Some(rows(0))),
        Step::Finish { ending: Ending::Close, result: Ok(rows(0)) }
    );
}

#[test]
fn contacts_all_relatives_sends_the_search() {
    let expected = format!(
        "match
                $u isa user, has email $e;
                $e == '{}';
                let $relative in all_relatives($u);
                not {{ $u is $relative; }};
                $relative has username $username;
                select $username;
                sort $username asc;
                ",
        "kevin.morrison@typedb.com"
    );
    assert_eq!(
        get_all_relatives_by_email("kevin.morrison@typedb.com", Some(rows(1)), None),
        send(TransactionType::Read, QueryKind::Match, expected)
    );
    assert_eq!(
        get_all_relatives_by_email("kevin.morrison@typedb.com", Some(rows(1)), Some(rows(2))),
        Step::Finish { ending: Ending::Close, result: Ok(rows(2)) }
    );
}

#[test]
fn contacts_update_phone_commits_whatever_it_met() {
    let email = "kevin.morrison@typedb.com";
    let old_phone = "110000000";
    let new_phone = "110000002";
    let expected = format!(
        "match $u isa user, has email '{email}', has phone $phone; $phone == '{old_phone}';
            delete $phone of $u;
            insert $u has phone '{new_phone}';",
    );
    assert_eq!(
        update_phone_by_email(email, old_phone, new_phone, None),
        send(TransactionType::Write, QueryKind::Update, expected)
    );
    assert_eq!(
        update_phone_by_email(email, old_phone, new_phone, Some(rows(1))),
        Step::Finish { ending: Ending::Commit, result: Ok(rows(1)) }
    );
    assert_eq!(
        update_phone_by_email(email, old_phone, new_phone, Some(rows(0))),
        Step::Finish { ending: Ending::Commit, result: Ok(rows(0)) }
    );
}

#[test]
fn contacts_delete_user_counts_and_closes() {
    let email = "k.koolidge@typedb.com";
    let expected = format!(
        "match $u isa user, has email '{email}';
        delete $u;"
    );
    assert_eq!(delete_user_by_email(email, None), send(TransactionType::Write, QueryKind::Delete, expected));
    assert_eq!(
        delete_user_by_email(email, Some(rows(1))),
        Step::Finish { ending: Ending::Close, result: Ok(1) }
    );
    assert_eq!(
        delete_user_by_email(email, Some(rows(0))),
        Step::Finish { ending: Ending::Close, result: Ok(0) }
    );
}

#[test]
fn contacts_validate_data_wants_three_users() {
    assert_eq!(EXPECTED_USERS, 3);
    assert_eq!(COUNT_USERS, "match $u isa user; reduce $count = count;");
    assert_eq!(
        validate_data(None),
        send(TransactionType::Read, QueryKind::Match, "match $u isa user; reduce $count = count;".to_string())
    );
    assert_eq!(validate_data(Some(3)), Step::Finish { ending: Ending::Close, result: Ok(true) });
    for count in [0i64, 2, 4, -1, i64::MIN] {
        match validate_data(Some(count)) {
            Step::Finish { ending: Ending::Close, result: Err(error) } => {
                assert_eq!(error, AppError::ValidationFailed { count });
                assert_eq!(
                    error.message(),
                    format!("Validation failed, unexpected number of users: {}. Terminating...", count)
                );
            }
            other => panic!("an error was expected, not {:?}", other),
        }
    }
}

#[test]
fn contacts_queries_runs_six_tasks() {
    assert_eq!(TASKS, 6);
    assert_eq!(queries(0, None), Ok(Some(Task::FetchAllUsers)));
    assert_eq!(
        queries(1, Some(Ok(3))),
        Ok(Some(Task::InsertNewUser {
            email: "k.koolidge@typedb.com".to_string(),
            phone: "17778889999".to_string(),
            username: "k-koolidge".to_string()
        }))
    );
    assert_eq!(
        queries(2, Some(Ok(1))),
        Ok(Some(Task::GetDirectRelatives { email: "kevin.morrison@typedb.com".to_string() }))
    );
    assert_eq!(
        queries(3, Some(Ok(1))),
        Ok(Some(Task::GetAllRelatives { email: "kevin.morrison@typedb.com".to_string() }))
    );
    assert_eq!(
        queries(4, Some(Ok(2))),
        Ok(Some(Task::UpdatePhone {
            email: "kevin.morrison@typedb.com".to_string(),
            old_phone: "110000000".to_string(),
            new_phone: "110000002".to_string()
        }))
    );
    assert_eq!(queries(5, Some(Ok(1))), Ok(Some(Task::DeleteUser { email: "k.koolidge@typedb.com".to_string() })));
    assert_eq!(queries(6, Some(Ok(0))), Ok(None));
    assert_eq!(queries(6, Some(Ok(7))), Ok(None));
    assert_eq!(queries(usize::MAX, None), Ok(None));
}

#[test]
fn contacts_queries_ends_with_the_first_failure() {
    for done in 1..=6usize {
        assert_eq!(queries(done, Some(Err(AppError::NoUsersFound))), Err(AppError::NoUsersFound));
        let remote = AppError::Remote { message: "down".to_string() };
        assert_eq!(queries(done, Some(Err(AppError::Remote { message: "down".to_string() }))), Err(remote));
    }
}

#[test]
fn contacts_queries_checks_the_counts() {
    let expected = [Some(3usize), Some(1), Some(1), Some(2), Some(1), None, None];
    for (place, count) in expected.iter().enumerate() {
        assert_eq!(expected_count(place), *count);
    }
}
