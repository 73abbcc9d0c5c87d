//! The tasks of the sample application on a database of users, files and
//! the permissions of the ones on the others. Each task is a function from
//! what the server has answered so far to what is to be done next.

use crate::answer::{Row, Value};
use crate::model::{SessionType, TransactionType};
use crate::options::Options;
use crate::query::QueryKind;
use crate::sample::error::{AppError, AppErrorView};
use crate::sample::step::{Ending, Request, Step};
use crate::stream::reversed;
use crate::text::{fill, fill2};
use vstd::prelude::*;
use vstd::string::*;

verus! {

/// The query for the name and e-mail address of every user.
pub const FETCH_ALL_USERS: &'static str = "match $u isa user; fetch $u: full-name, email;";

/// The query that counts the users.
pub const COUNT_USERS: &'static str = "match $u isa user; get $u; count;";

/// The file that holds the schema.
pub const SCHEMA_FILE: &'static str = "iam-schema.tql";

/// The file that holds the data.
pub const DATA_FILE: &'static str = "iam-data-single-query.tql";

/// The number of users that the data of the sample application holds.
pub const EXPECTED_USERS: i64 = 3;

/// The query that inserts a person.
pub open spec fn insert_user_text(name: Seq<char>, email: Seq<char>) -> Seq<char> {
    "insert $p isa person, has full-name $fn, has email $e; $fn == '"@ + name + "'; $e == '"@ + email
        + "';"@
}

/// The query for the user with a name.
pub open spec fn user_by_name_text(name: Seq<char>) -> Seq<char> {
    "match $u isa user, has full-name '"@ + name + "'; get;"@
}

/// The query for the paths of the files that a user may view.
pub open spec fn files_of_user_text(name: Seq<char>) -> Seq<char> {
    "match\n                $fn == '"@ + name
        + "';\n                $u isa user, has full-name $fn;\n                $p($u, $pa) isa permission;\n                $o isa object, has path $fp;\n                $pa($o, $va) isa access;\n                $va isa action, has name 'view_file';\n                get $fp; sort $fp asc;\n                "@
}

/// The query that gives a file another path.
pub open spec fn update_path_text(old_path: Seq<char>, new_path: Seq<char>) -> Seq<char> {
    "match\n            $f isa file, has path $old_path;\n            $old_path = '"@ + old_path
        + "';\n            delete\n            $f has $old_path;\n            insert\n            $f has path $new_path;\n            $new_path = '"@
        + new_path + "';"@
}

/// The query for the file with a path.
pub open spec fn file_by_path_text(path: Seq<char>) -> Seq<char> {
    "match\n            $f isa file, has path '"@ + path + "';\n            get;"@
}

/// The query that deletes the file with a path.
pub open spec fn delete_file_text(path: Seq<char>) -> Seq<char> {
    "match\n                $f isa file, has path '"@ + path
        + "';\n                delete\n                $f isa file;\n                "@
}

fn request(transaction: TransactionType, options: Options, kind: QueryKind, text: String) -> (r: Request)
    ensures
        r.is(SessionType::Data, transaction, options, kind, text@),
{
    Request { session: SessionType::Data, transaction, options, kind, text }
}

/// Fetches every user. `documents` is the answer to the query, once it
/// is there. No document at all is an error.
pub fn fetch_all_users(documents: Option<Vec<String>>) -> (r: Step<Vec<String>>)
    ensures
        r matches Step::Send(request) ==> request.legal(),
        match documents {
            None => r.sends(
                SessionType::Data,
                TransactionType::Read,
                Options::none(),
                QueryKind::Fetch,
                FETCH_ALL_USERS@,
            ),
            Some(found) => if found@.len() > 0 {
                r.succeeds(Ending::Close, found)
            } else {
                r.fails(Ending::Close, AppErrorView::NoUsersFound)
            },
        },
{
    match documents {
        None => Step::Send(
            request(
                TransactionType::Read,
                Options::new(),
                QueryKind::Fetch,
                String::from_str(FETCH_ALL_USERS),
            ),
        ),
        Some(found) => {
            if found.len() > 0 {
                Step::Finish { ending: Ending::Close, result: Ok(found) }
            } else {
                Step::Finish { ending: Ending::Close, result: Err(AppError::NoUsersFound) }
            }
        },
    }
}

/// Inserts a person. `rows` is the answer to the insert, once it is
/// there. If it answered with a row the insert is committed, and the task
/// succeeds only if the commit does; if it answered with none, the task
/// fails.
pub fn insert_new_user(new_name: &str, new_email: &str, rows: Option<Vec<Row>>) -> (r: Step<Vec<Row>>)
    ensures
        r matches Step::Send(request) ==> request.legal(),
        match rows {
            None => r.sends(
                SessionType::Data,
                TransactionType::Write,
                Options::none(),
                QueryKind::Insert,
                insert_user_text(new_name@, new_email@),
            ),
            Some(inserted) => if inserted@.len() > 0 {
                r.succeeds(Ending::Commit, inserted)
            } else {
                r.fails(Ending::Close, AppErrorView::NoUsersFound)
            },
        },
{
    match rows {
        None => Step::Send(
            request(
                TransactionType::Write,
                Options::new(),
                QueryKind::Insert,
                fill2(
                    "insert $p isa person, has full-name $fn, has email $e; $fn == '",
                    new_name,
                    "'; $e == '",
                    new_email,
                    "';",
                ),
            ),
        ),
        Some(inserted) => {
            if inserted.len() > 0 {
                Step::Finish { ending: Ending::Commit, result: Ok(inserted) }
            } else {
                Step::Finish { ending: Ending::Close, result: Err(AppError::NoUsersFound) }
            }
        },
    }
}

/// Numbers the rows from 0, in their order.
pub fn enumerate(rows: Vec<Row>) -> (r: Vec<(usize, Row)>)
    ensures
        r@.len() == rows@.len(),
        forall|i: int| 0 <= i < rows@.len() ==> r@[i] == (i as usize, rows@[i]),
{
    let ghost all = rows@;
    let total: usize = rows.len();
    let mut reversed: Vec<Row> = reversed(rows);
    let mut numbered: Vec<(usize, Row)> = Vec::new();
    while reversed.len() > 0
        invariant
            numbered@.len() + reversed@.len() == all.len(),
            all.len() == total,
            forall|j: int| 0 <= j < reversed@.len() ==> reversed@[j] == all[all.len() - 1 - j],
            forall|i: int| 0 <= i < numbered@.len() ==> numbered@[i] == (i as usize, all[i]),
        decreases reversed.len(),
    {
        let row = reversed.pop().unwrap();
        let number: usize = numbered.len();
        numbered.push((number, row));
    }
    numbered
}

/// Finds the files that a user may view, with or without what the rules
/// of the schema add. `users` is the answer to the search for the user,
/// `files` the answer to the search for the files, each once it is there.
/// The user must be found exactly once; the files come numbered from 0.
pub fn get_files_by_user(name: &str, inference: bool, users: Option<Vec<Row>>, files: Option<Vec<Row>>) -> (r:
    Step<Vec<(usize, Row)>>)
    ensures
        r matches Step::Send(request) ==> request.legal(),
        match users {
            None => r.sends(
                SessionType::Data,
                TransactionType::Read,
                (Options { infer: inference, explain: false }),
                QueryKind::Match,
                user_by_name_text(name@),
            ),
            Some(found) => if found@.len() > 1 {
                r.fails(Ending::Close, AppErrorView::AmbiguousUser)
            } else if found@.len() == 0 {
                r.fails(Ending::Close, AppErrorView::UnknownUser)
            } else {
                match files {
                    None => r.sends(
                        SessionType::Data,
                        TransactionType::Read,
                        (Options { infer: inference, explain: false }),
                        QueryKind::Match,
                        files_of_user_text(name@),
                    ),
                    Some(viewable) => r matches Step::Finish { ending, result } && ending == Ending::Close
                        && (result matches Ok(numbered) && numbered@.len() == viewable@.len()
                        && forall|i: int|
                        0 <= i < viewable@.len() ==> numbered@[i] == (i as usize, viewable@[i])),
                }
            },
        },
{
    let options = Options::new().infer(inference);
    match users {
        None => Step::Send(
            request(
                TransactionType::Read,
                options,
                QueryKind::Match,
                fill("match $u isa user, has full-name '", name, "'; get;"),
            ),
        ),
        Some(found) => {
            if found.len() > 1 {
                Step::Finish { ending: Ending::Close, result: Err(AppError::AmbiguousUser) }
            } else if found.len() == 0 {
                Step::Finish { ending: Ending::Close, result: Err(AppError::UnknownUser) }
            } else {
                match files {
                    None => Step::Send(
                        request(
                            TransactionType::Read,
                            options,
                            QueryKind::Match,
                            fill(
                                "match\n                $fn == '",
                                name,
                                "';\n                $u isa user, has full-name $fn;\n                $p($u, $pa) isa permission;\n                $o isa object, has path $fp;\n                $pa($o, $va) isa access;\n                $va isa action, has name 'view_file';\n                get $fp; sort $fp asc;\n                ",
                            ),
                        ),
                    ),
                    Some(viewable) => Step::Finish { ending: Ending::Close, result: Ok(enumerate(viewable)) },
                }
            }
        },
    }
}

/// Gives a file another path. `rows` is the answer to the update, once
/// it is there. If it answered with a row the update is committed, and
/// the task succeeds only if the commit does; if no file had the old
/// path, nothing is committed and the task succeeds with no row.
pub fn update_filepath(old_path: &str, new_path: &str, rows: Option<Vec<Row>>) -> (r: Step<Vec<Row>>)
    ensures
        r matches Step::Send(request) ==> request.legal(),
        match rows {
            None => r.sends(
                SessionType::Data,
                TransactionType::Write,
                Options::none(),
                QueryKind::Update,
                update_path_text(old_path@, new_path@),
            ),
            Some(updated) => if updated@.len() > 0 {
                r.succeeds(Ending::Commit, updated)
            } else {
                r.succeeds(Ending::Close, updated)
            },
        },
{
    match rows {
        None => Step::Send(
            request(
                TransactionType::Write,
                Options::new(),
                QueryKind::Update,
                fill2(
                    "match\n            $f isa file, has path $old_path;\n            $old_path = '",
                    old_path,
                    "';\n            delete\n            $f has $old_path;\n            insert\n            $f has path $new_path;\n            $new_path = '",
                    new_path,
                    "';",
                ),
            ),
        ),
        Some(updated) => {
            if updated.len() > 0 {
                Step::Finish { ending: Ending::Commit, result: Ok(updated) }
            } else {
                Step::Finish { ending: Ending::Close, result: Ok(updated) }
            }
        },
    }
}

/// Runs the deletion of a file. `files` is the answer to the search for
/// the file, once it is there; `deleted` says, once the deletion was
/// asked for, whether the server carried it out. The file must be found
/// exactly once. The transaction is closed without a commit: the deletion
/// is tried, not kept.
pub fn delete_file(path: &str, files: Option<Vec<Row>>, deleted: Option<bool>) -> (r: Step<()>)
    ensures
        r matches Step::Send(request) ==> request.legal(),
        match files {
            None => r.sends(
                SessionType::Data,
                TransactionType::Write,
                Options::none(),
                QueryKind::Match,
                file_by_path_text(path@),
            ),
            Some(found) => if found@.len() != 1 {
                r.fails(Ending::Close, AppErrorView::FileCount { found: found@.len() })
            } else {
                match deleted {
                    None => r.sends(
                        SessionType::Data,
                        TransactionType::Write,
                        Options::none(),
                        QueryKind::Delete,
                        delete_file_text(path@),
                    ),
                    Some(true) => r.succeeds(Ending::Close, ()),
                    Some(false) => r.fails(Ending::Close, AppErrorView::DeleteFailed),
                }
            },
        },
{
    match files {
        None => Step::Send(
            request(
                TransactionType::Write,
                Options::new(),
                QueryKind::Match,
                fill("match\n            $f isa file, has path '", path, "';\n            get;"),
            ),
        ),
        Some(found) => {
            if found.len() != 1 {
                Step::Finish { ending: Ending::Close, result: Err(AppError::FileCount { found: found.len() }) }
            } else {
                match deleted {
                    None => Step::Send(
                        request(
                            TransactionType::Write,
                            Options::new(),
                            QueryKind::Delete,
                            fill(
                                "match\n                $f isa file, has path '",
                                path,
                                "';\n                delete\n                $f isa file;\n                ",
                            ),
                        ),
                    ),
                    Some(true) => Step::Finish { ending: Ending::Close, result: Ok(()) },
                    Some(false) => Step::Finish { ending: Ending::Close, result: Err(AppError::DeleteFailed) },
                }
            }
        },
    }
}

/// Tests that the database holds the users it should. `answer` is what
/// the counting query answered with, once it is there: a value, or none.
/// Anything but an integer is no answer to the test.
pub fn test_initial_database(answer: Option<Option<Value>>) -> (r: Step<bool>)
    ensures
        r matches Step::Send(request) ==> request.legal(),
        match answer {
            None => r.sends(
                SessionType::Data,
                TransactionType::Read,
                Options::none(),
                QueryKind::Aggregate,
                COUNT_USERS@,
            ),
            Some(Some(Value::Long(n))) => if n == EXPECTED_USERS {
                r.succeeds(Ending::Close, true)
            } else {
                r.fails(Ending::Close, AppErrorView::TestFailed)
            },
            Some(_) => r.fails(Ending::Close, AppErrorView::NoTestAnswer),
        },
{
    match answer {
        None => Step::Send(
            request(
                TransactionType::Read,
                Options::new(),
                QueryKind::Aggregate,
                String::from_str(COUNT_USERS),
            ),
        ),
        Some(Some(Value::Long(n))) => {
            if n == EXPECTED_USERS {
                Step::Finish { ending: Ending::Close, result: Ok(true) }
            } else {
                Step::Finish { ending: Ending::Close, result: Err(AppError::TestFailed) }
            }
        },
        Some(_) => Step::Finish { ending: Ending::Close, result: Err(AppError::NoTestAnswer) },
    }
}

/// One task of the run of the sample application, with its arguments.
#[derive(Debug, PartialEq, Eq)]
pub enum Task {
    FetchAllUsers,
    InsertNewUser { name: String, email: String },
    GetFilesByUser { name: String, inference: bool },
    UpdateFilepath { old_path: String, new_path: String },
    DeleteFile { path: String },
}

/// The name of the user whom the run adds.
pub const NEW_USER_NAME: &'static str = "Jack Keeper";

pub const NEW_USER_EMAIL: &'static str = "jk@vaticle.com";

/// The name of the user whose files the run looks for.
pub const KEVIN_NAME: &'static str = "Kevin Morrison";

/// The path that the run changes.
pub const OLD_PATH: &'static str = "lzfkn.java";

/// The path that the run changes it to, and then deletes.
pub const NEW_PATH: &'static str = "lzfkn2.java";

/// The number of tasks in a run.
pub const TASKS: usize = 6;

impl Task {
    /// The task is the one at this place of the run.
    pub open spec fn is_task(self, place: int) -> bool {
        if place == 0 {
            self is FetchAllUsers
        } else if place == 1 {
            self matches Task::InsertNewUser { name, email } && name@ == NEW_USER_NAME@ && email@
                == NEW_USER_EMAIL@
        } else if place == 2 {
            self matches Task::GetFilesByUser { name, inference } && name@ == KEVIN_NAME@ && !inference
        } else if place == 3 {
            self matches Task::GetFilesByUser { name, inference } && name@ == KEVIN_NAME@ && inference
        } else if place == 4 {
            self matches Task::UpdateFilepath { old_path, new_path } && old_path@ == OLD_PATH@ && new_path@
                == NEW_PATH@
        } else if place == 5 {
            self matches Task::DeleteFile { path } && path@ == NEW_PATH@
        } else {
            false
        }
    }
}

/// How many results the task at a place of the run must come to, where
/// the run checks that.
pub open spec fn expected_results(place: int) -> Option<usize> {
    if place == 0 {
        Some(3usize)
    } else if place == 1 {
        Some(1usize)
    } else if place == 2 {
        Some(0usize)
    } else if place == 3 {
        Some(10usize)
    } else if place == 4 {
        Some(1usize)
    } else {
        None
    }
}

/// The task at a place of the run, or `None` behind its end.
fn task_at(place: usize) -> (r: Option<Task>)
    ensures
        r is Some <==> place < TASKS,
        r matches Some(task) ==> task.is_task(place as int),
{
    if place == 0 {
        Some(Task::FetchAllUsers)
    } else if place == 1 {
        Some(
            Task::InsertNewUser {
                name: String::from_str(NEW_USER_NAME),
                email: String::from_str(NEW_USER_EMAIL),
            },
        )
    } else if place == 2 {
        Some(Task::GetFilesByUser { name: String::from_str(KEVIN_NAME), inference: false })
    } else if place == 3 {
        Some(Task::GetFilesByUser { name: String::from_str(KEVIN_NAME), inference: true })
    } else if place == 4 {
        Some(
            Task::UpdateFilepath {
                old_path: String::from_str(OLD_PATH),
                new_path: String::from_str(NEW_PATH),
            },
        )
    } else if place == 5 {
        Some(Task::DeleteFile { path: String::from_str(NEW_PATH) })
    } else {
        None
    }
}

/// What the run comes to when a task has failed: the error of the
/// task, but for the last task of the run, of which it is only said that
/// the application ended unexpectedly.
pub open spec fn run_failure(done: int, error: AppErrorView) -> AppErrorView {
    if done >= TASKS {
        AppErrorView::Terminated
    } else {
        error
    }
}

/// The run of the sample application, one task at a time. `done` is the
/// number of tasks carried out so far and `last` what the last of them
/// came to: the number of its results, or its error; `None` before the
/// first. The tasks follow each other in their order while they succeed,
/// and `Ok(None)` says that the run is over.
/// A task that failed ends the run, and no task follows: with the error
/// of the task, or, where it was the last task of the run, with the word
/// that the application ended unexpectedly.
/// A task whose results are counted must have come to the number
/// expected of it.
pub fn queries(done: usize, last: Option<Result<usize, AppError>>) -> (r: Result<Option<Task>, AppError>)
    requires
        last matches Some(Ok(results)) ==> (done >= 1 && expected_results(done - 1) is Some
            ==> expected_results(done - 1) == Some(results)),
    ensures
        match last {
            Some(Err(error)) => r matches Err(e) && e@ == run_failure(done as int, error@),
            _ => r matches Ok(next) && (next is Some <==> done < TASKS) && (next matches Some(task)
                ==> task.is_task(done as int)),
        },
{
    match last {
        Some(Err(error)) => {
            if done >= TASKS {
                Err(AppError::Terminated)
            } else {
                Err(error)
            }
        },
        _ => Ok(task_at(done)),
    }
}

/// The number of results that the run checks the task at `place` against.
pub fn expected_count(place: usize) -> (r: Option<usize>)
    ensures
        r == expected_results(place as int),
{
    if place == 0 {
        Some(3)
    } else if place == 1 {
        Some(1)
    } else if place == 2 {
        Some(0)
    } else if place == 3 {
        Some(10)
    } else if place == 4 {
        Some(1)
    } else {
        None
    }
}

} // verus!
