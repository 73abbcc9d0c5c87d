//! The tasks of the sample application on a database of users with their
//! phones, e-mail addresses and families. Each task is a function from
//! what the server has answered so far to what is to be done next.

use crate::answer::Row;
use crate::model::{SessionType, TransactionType};
use crate::options::Options;
use crate::query::QueryKind;
use crate::sample::error::{AppError, AppErrorView};
use crate::sample::step::{Ending, Request, Step};
use crate::text::{fill, fill3};
use vstd::prelude::*;
use vstd::string::*;

verus! {

/// The query for the phone and e-mail address of every user.
pub const FETCH_ALL_USERS: &'static str =
    "match $u isa user; fetch { 'phone': $u.phone, 'email': $u.email };";

/// The query that counts the users.
pub const COUNT_USERS: &'static str = "match $u isa user; reduce $count = count;";

/// The file that holds the schema.
pub const SCHEMA_FILE: &'static str = "schema.tql";

/// The file that holds the data.
pub const DATA_FILE: &'static str = "data_small_single_query.tql";

/// The number of users that the data of the sample application holds.
pub const EXPECTED_USERS: i64 = 3;

/// The query that inserts a user.
pub open spec fn insert_user_text(email: Seq<char>, phone: Seq<char>, username: Seq<char>) -> Seq<char> {
    "insert $u isa user, has $e, has $p, has $username; $e isa email '"@ + email + "'; $p isa phone '"@
        + phone + "'; $username isa username '"@ + username + "';"@
}

/// The query for the user with an e-mail address.
pub open spec fn user_by_email_text(email: Seq<char>) -> Seq<char> {
    "match $u isa user, has email '"@ + email + "';"@
}

/// The query for the names of those who share a family with a user.
pub open spec fn direct_relatives_text(email: Seq<char>) -> Seq<char> {
    "match\n                $e == '"@ + email
        + "';\n                $u isa user, has email $e;\n                $family isa family ($u, $relative);\n                $relative has username $username;\n                not { $u is $relative; };\n                select $username;\n                sort $username asc;\n                "@
}

/// The query for the names of all who are related to a user, however far.
pub open spec fn all_relatives_text(email: Seq<char>) -> Seq<char> {
    "match\n                $u isa user, has email $e;\n                $e == '"@ + email
        + "';\n                let $relative in all_relatives($u);\n                not { $u is $relative; };\n                $relative has username $username;\n                select $username;\n                sort $username asc;\n                "@
}

/// The query that replaces one phone of a user by another.
pub open spec fn update_phone_text(email: Seq<char>, old_phone: Seq<char>, new_phone: Seq<char>) -> Seq<
    char,
> {
    "match $u isa user, has email '"@ + email + "', has phone $phone; $phone == '"@ + old_phone
        + "';\n            delete $phone of $u;\n            insert $u has phone '"@ + new_phone + "';"@
}

/// The query that deletes the user with an e-mail address.
pub open spec fn delete_user_text(email: Seq<char>) -> Seq<char> {
    "match $u isa user, has email '"@ + email + "';\n        delete $u;"@
}

fn request(transaction: TransactionType, kind: QueryKind, text: String) -> (r: Request)
    ensures
        r.is(SessionType::Data, transaction, Options::none(), kind, text@),
{
    Request { session: SessionType::Data, transaction, options: Options::new(), kind, text }
}

/// Fetches every user. `documents` is the answer to the query, once it
/// is there. No document at all is an error.
pub fn fetch_all_users(documents: Option<Vec<String>>) -> (r: Step<Vec<String>>)
    ensures
        r matches Step::Send(request) ==> request.legal(),
        match documents {
            None => r.sends(
                SessionType::Data,
                TransactionType::Read,
                Options::none(),
                QueryKind::Fetch,
                FETCH_ALL_USERS@,
            ),
            Some(found) => if found@.len() > 0 {
                r.succeeds(Ending::Close, found)
            } else {
                r.fails(Ending::Close, AppErrorView::NoUsersFound)
            },
        },
{
    match documents {
        None => Step::Send(
            request(TransactionType::Read, QueryKind::Fetch, String::from_str(FETCH_ALL_USERS)),
        ),
        Some(found) => {
            if found.len() > 0 {
                Step::Finish { ending: Ending::Close, result: Ok(found) }
            } else {
                Step::Finish { ending: Ending::Close, result: Err(AppError::NoUsersFound) }
            }
        },
    }
}

/// Inserts a user. `rows` is the answer to the insert, once it is there.
/// The insert is committed if it answered with a row, and is an error if
/// it did not.
pub fn insert_new_user(new_email: &str, new_phone: &str, new_username: &str, rows: Option<Vec<Row>>) -> (r:
    Step<Vec<Row>>)
    ensures
        r matches Step::Send(request) ==> request.legal(),
        match rows {
            None => r.sends(
                SessionType::Data,
                TransactionType::Write,
                Options::none(),
                QueryKind::Insert,
                insert_user_text(new_email@, new_phone@, new_username@),
            ),
            Some(inserted) => if inserted@.len() > 0 {
                r.succeeds(Ending::Commit, inserted)
            } else {
                r.fails(Ending::Close, AppErrorView::NoUsersCreated)
            },
        },
{
    match rows {
        None => Step::Send(
            request(
                TransactionType::Write,
                QueryKind::Insert,
                fill3(
                    "insert $u isa user, has $e, has $p, has $username; $e isa email '",
                    new_email,
                    "'; $p isa phone '",
                    new_phone,
                    "'; $username isa username '",
                    new_username,
                    "';",
                ),
            ),
        ),
        Some(inserted) => {
            if inserted.len() > 0 {
                Step::Finish { ending: Ending::Commit, result: Ok(inserted) }
            } else {
                Step::Finish { ending: Ending::Close, result: Err(AppError::NoUsersCreated) }
            }
        },
    }
}

/// The first half of both searches for relatives: the user is looked up,
/// and must be found exactly once.
fn look_up_user(email: &str, users: &Option<Vec<Row>>) -> (r: Option<Step<Vec<Row>>>)
    ensures
        match *users {
            None => r matches Some(step) && step.sends(
                SessionType::Data,
                TransactionType::Read,
                Options::none(),
                QueryKind::Match,
                user_by_email_text(email@),
            ),
            Some(found) => if found@.len() != 1 {
                r matches Some(step) && step.fails(
                    Ending::Close,
                    AppErrorView::UserCount { found: found@.len(), email: email@ },
                )
            } else {
                r is None
            },
        },
{
    match users {
        None => Some(
            Step::Send(
                request(
                    TransactionType::Read,
                    QueryKind::Match,
                    fill("match $u isa user, has email '", email, "';"),
                ),
            ),
        ),
        Some(found) => {
            if found.len() != 1 {
                Some(
                    Step::Finish {
                        ending: Ending::Close,
                        result: Err(
                            AppError::UserCount { found: found.len(), email: String::from_str(email) },
                        ),
                    },
                )
            } else {
                None
            }
        },
    }
}

/// Finds those who share a family with a user. `users` is the answer to
/// the search for the user, `relatives` the answer to the search for the
/// relatives, each once it is there. The user must be found exactly once.
pub fn get_direct_relatives_by_email(email: &str, users: Option<Vec<Row>>, relatives: Option<Vec<Row>>) -> (r:
    Step<Vec<Row>>)
    ensures
        r matches Step::Send(request) ==> request.legal(),
        match users {
            None => r.sends(
                SessionType::Data,
                TransactionType::Read,
                Options::none(),
                QueryKind::Match,
                user_by_email_text(email@),
            ),
            Some(found) => if found@.len() != 1 {
                r.fails(Ending::Close, AppErrorView::UserCount { found: found@.len(), email: email@ })
            } else {
                match relatives {
                    None => r.sends(
                        SessionType::Data,
                        TransactionType::Read,
                        Options::none(),
                        QueryKind::Match,
                        direct_relatives_text(email@),
                    ),
                    Some(related) => r.succeeds(Ending::Close, related),
                }
            },
        },
{
    if let Some(step) = look_up_user(email, &users) {
        return step;
    }
    match relatives {
        None => Step::Send(
            request(
                TransactionType::Read,
                QueryKind::Match,
                fill(
                    "match\n                $e == '",
                    email,
                    "';\n                $u isa user, has email $e;\n                $family isa family ($u, $relative);\n                $relative has username $username;\n                not { $u is $relative; };\n                select $username;\n                sort $username asc;\n                ",
                ),
            ),
        ),
        Some(related) => Step::Finish { ending: Ending::Close, result: Ok(related) },
    }
}

/// Finds all who are related to a user, however far. The arguments are
/// those of `get_direct_relatives_by_email`.
pub fn get_all_relatives_by_email(email: &str, users: Option<Vec<Row>>, relatives: Option<Vec<Row>>) -> (r:
    Step<Vec<Row>>)
    ensures
        r matches Step::Send(request) ==> request.legal(),
        match users {
            None => r.sends(
                SessionType::Data,
                TransactionType::Read,
                Options::none(),
                QueryKind::Match,
                user_by_email_text(email@),
            ),
            Some(found) => if found@.len() != 1 {
                r.fails(Ending::Close, AppErrorView::UserCount { found: found@.len(), email: email@ })
            } else {
                match relatives {
                    None => r.sends(
                        SessionType::Data,
                        TransactionType::Read,
                        Options::none(),
                        QueryKind::Match,
                        all_relatives_text(email@),
                    ),
                    Some(related) => r.succeeds(Ending::Close, related),
                }
            },
        },
{
    if let Some(step) = look_up_user(email, &users) {
        return step;
    }
    match relatives {
        None => Step::Send(
            request(
                TransactionType::Read,
                QueryKind::Match,
                fill(
                    "match\n                $u isa user, has email $e;\n                $e == '",
                    email,
                    "';\n                let $relative in all_relatives($u);\n                not { $u is $relative; };\n                $relative has username $username;\n                select $username;\n                sort $username asc;\n                ",
                ),
            ),
        ),
        Some(related) => Step::Finish { ending: Ending::Close, result: Ok(related) },
    }
}

/// Replaces one phone of a user by another, and commits whatever the
/// update answered with. `rows` is that answer, once it is there.
pub fn update_phone_by_email(email: &str, old_phone: &str, new_phone: &str, rows: Option<Vec<Row>>) -> (r:
    Step<Vec<Row>>)
    ensures
        r matches Step::Send(request) ==> request.legal(),
        match rows {
            None => r.sends(
                SessionType::Data,
                TransactionType::Write,
                Options::none(),
                QueryKind::Update,
                update_phone_text(email@, old_phone@, new_phone@),
            ),
            Some(updated) => r.succeeds(Ending::Commit, updated),
        },
{
    match rows {
        None => Step::Send(
            request(
                TransactionType::Write,
                QueryKind::Update,
                fill3(
                    "match $u isa user, has email '",
                    email,
                    "', has phone $phone; $phone == '",
                    old_phone,
                    "';\n            delete $phone of $u;\n            insert $u has phone '",
                    new_phone,
                    "';",
                ),
            ),
        ),
        Some(updated) => Step::Finish { ending: Ending::Commit, result: Ok(updated) },
    }
}

/// Runs the deletion of a user and reports how many users it met. The
/// transaction is closed without a commit: the deletion is tried, not kept.
/// `rows` is the answer to the deletion, once it is there.
pub fn delete_user_by_email(email: &str, rows: Option<Vec<Row>>) -> (r: Step<usize>)
    ensures
        r matches Step::Send(request) ==> request.legal(),
        match rows {
            None => r.sends(
                SessionType::Data,
                TransactionType::Write,
                Options::none(),
                QueryKind::Delete,
                delete_user_text(email@),
            ),
            Some(deleted) => r.succeeds(Ending::Close, deleted@.len() as usize),
        },
{
    match rows {
        None => Step::Send(
            request(
                TransactionType::Write,
                QueryKind::Delete,
                fill("match $u isa user, has email '", email, "';\n        delete $u;"),
            ),
        ),
        Some(deleted) => Step::Finish { ending: Ending::Close, result: Ok(deleted.len()) },
    }
}

/// Checks that the database holds the users it should. `count` is the
/// number that the counting query answered with, once it is there.
pub fn validate_data(count: Option<i64>) -> (r: Step<bool>)
    ensures
        r matches Step::Send(request) ==> request.legal(),
        match count {
            None => r.sends(
                SessionType::Data,
                TransactionType::Read,
                Options::none(),
                QueryKind::Match,
                COUNT_USERS@,
            ),
            Some(n) => if n == EXPECTED_USERS {
                r.succeeds(Ending::Close, true)
            } else {
                r.fails(Ending::Close, AppErrorView::ValidationFailed { count: n as int })
            },
        },
{
    match count {
        None => Step::Send(request(TransactionType::Read, QueryKind::Match, String::from_str(COUNT_USERS))),
        Some(n) => {
            if n == EXPECTED_USERS {
                Step::Finish { ending: Ending::Close, result: Ok(true) }
            } else {
                Step::Finish { ending: Ending::Close, result: Err(AppError::ValidationFailed { count: n }) }
            }
        },
    }
}

/// One task of the run of the sample application, with its arguments.
#[derive(Debug, PartialEq, Eq)]
pub enum Task {
    FetchAllUsers,
    InsertNewUser { email: String, phone: String, username: String },
    GetDirectRelatives { email: String },
    GetAllRelatives { email: String },
    UpdatePhone { email: String, old_phone: String, new_phone: String },
    DeleteUser { email: String },
}

/// The e-mail address of the user whom the run adds and deletes again.
pub const NEW_USER_EMAIL: &'static str = "k.koolidge@typedb.com";

pub const NEW_USER_PHONE: &'static str = "17778889999";

pub const NEW_USER_USERNAME: &'static str = "k-koolidge";

/// The e-mail address of the user whose relatives the run looks for.
pub const KEVIN_EMAIL: &'static str = "kevin.morrison@typedb.com";

pub const OLD_KEVIN_PHONE: &'static str = "110000000";

pub const NEW_KEVIN_PHONE: &'static str = "110000002";

/// The number of tasks in a run.
pub const TASKS: usize = 6;

impl Task {
    /// The task is the one at this place of the run.
    pub open spec fn is_task(self, place: int) -> bool {
        if place == 0 {
            self is FetchAllUsers
        } else if place == 1 {
            self matches Task::InsertNewUser { email, phone, username } && email@ == NEW_USER_EMAIL@
                && phone@ == NEW_USER_PHONE@ && username@ == NEW_USER_USERNAME@
        } else if place == 2 {
            self matches Task::GetDirectRelatives { email } && email@ == KEVIN_EMAIL@
        } else if place == 3 {
            self matches Task::GetAllRelatives { email } && email@ == KEVIN_EMAIL@
        } else if place == 4 {
            self matches Task::UpdatePhone { email, old_phone, new_phone } && email@ == KEVIN_EMAIL@
                && old_phone@ == OLD_KEVIN_PHONE@ && new_phone@ == NEW_KEVIN_PHONE@
        } else if place == 5 {
            self matches Task::DeleteUser { email } && email@ == NEW_USER_EMAIL@
        } else {
            false
        }
    }
}

/// How many results the task at a place of the run must come to, where
/// the run checks that.
pub open spec fn expected_results(place: int) -> Option<usize> {
    if place == 0 {
        Some(3usize)
    } else if place == 1 {
        Some(1usize)
    } else if place == 2 {
        Some(1usize)
    } else if place == 3 {
        Some(2usize)
    } else if place == 4 {
        Some(1usize)
    } else {
        None
    }
}

/// The task at a place of the run, or `None` behind its end.
fn task_at(place: usize) -> (r: Option<Task>)
    ensures
        r is Some <==> place < TASKS,
        r matches Some(task) ==> task.is_task(place as int),
{
    if place == 0 {
        Some(Task::FetchAllUsers)
    } else if place == 1 {
        Some(
            Task::InsertNewUser {
                email: String::from_str(NEW_USER_EMAIL),
                phone: String::from_str(NEW_USER_PHONE),
                username: String::from_str(NEW_USER_USERNAME),
            },
        )
    } else if place == 2 {
        Some(Task::GetDirectRelatives { email: String::from_str(KEVIN_EMAIL) })
    } else if place == 3 {
        Some(Task::GetAllRelatives { email: String::from_str(KEVIN_EMAIL) })
    } else if place == 4 {
        Some(
            Task::UpdatePhone {
                email: String::from_str(KEVIN_EMAIL),
                old_phone: String::from_str(OLD_KEVIN_PHONE),
                new_phone: String::from_str(NEW_KEVIN_PHONE),
            },
        )
    } else if place == 5 {
        Some(Task::DeleteUser { email: String::from_str(NEW_USER_EMAIL) })
    } else {
        None
    }
}

/// The run of the sample application, one task at a time. `done` is the
/// number of tasks carried out so far and `last` what the last of them
/// came to: the number of its results, or its error; `None` before the
/// first. The tasks follow each other in their order while they succeed,
/// and `Ok(None)` says that the run is over.
/// A task that failed ends the run with its error, and no task follows.
/// A task whose results are counted must have come to the number
/// expected of it.
pub fn queries(done: usize, last: Option<Result<usize, AppError>>) -> (r: Result<Option<Task>, AppError>)
    requires
        last matches Some(Ok(results)) ==> (done >= 1 && expected_results(done - 1) is Some
            ==> expected_results(done - 1) == Some(results)),
    ensures
        match last {
            Some(Err(error)) => r matches Err(e) && e@ == error@,
            _ => r matches Ok(next) && (next is Some <==> done < TASKS) && (next matches Some(task)
                ==> task.is_task(done as int)),
        },
{
    match last {
        Some(Err(error)) => Err(error),
        _ => Ok(task_at(done)),
    }
}

/// The number of results that the run checks the task at `place` against.
pub fn expected_count(place: usize) -> (r: Option<usize>)
    ensures
        r == expected_results(place as int),
{
    if place == 0 {
        Some(3)
    } else if place == 1 {
        Some(1)
    } else if place == 2 {
        Some(1)
    } else if place == 3 {
        Some(2)
    } else if place == 4 {
        Some(1)
    } else {
        None
    }
}

} // verus!
