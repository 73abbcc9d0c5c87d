//! The errors of the sample application, each with the text it is
//! reported with.

use crate::text::{decimal, decimal_of, signed_decimal, signed_decimal_of};
use vstd::prelude::*;
use vstd::string::*;

verus! {

#[derive(Debug, PartialEq, Eq)]
pub enum AppError {
    /// The query for all users answered with no document.
    NoUsersFound,
    /// The insert of a new user answered with no row.
    NoUsersCreated,
    /// A user was looked up by e-mail and not found exactly once.
    UserCount { found: usize, email: String },
    /// A user was looked up by name and found more than once.
    AmbiguousUser,
    /// A user was looked up by name and not found.
    UnknownUser,
    /// The server did not delete the file.
    DeleteFailed,
    /// A file was to be deleted and not found exactly once.
    FileCount { found: usize },
    /// The last request of the run failed.
    Terminated,
    /// The server did not create the database.
    CreateFailed { cause: String },
    /// The server did not delete the database that was to be replaced.
    DropFailed { cause: String },
    /// The database was deleted, and setting it up again failed.
    ReplaceFailed { cause: String },
    /// A file with queries could not be read.
    LoadFailed { path: String, cause: String },
    /// The database does not hold the number of users it should.
    ValidationFailed { count: i64 },
    /// The test of the database failed.
    TestFailed,
    /// The test query answered with no value.
    NoTestAnswer,
    /// The database could not be set up.
    SetupFailed,
    /// The caller reported something that the step it was at does not wait for.
    Unexpected,
    /// An error of the server or the channel, handed on with its text.
    Remote { message: String },
}

/// An error of the sample application, with texts as sequences of
/// characters.
pub enum AppErrorView {
    NoUsersFound,
    NoUsersCreated,
    UserCount { found: nat, email: Seq<char> },
    AmbiguousUser,
    UnknownUser,
    DeleteFailed,
    FileCount { found: nat },
    Terminated,
    CreateFailed { cause: Seq<char> },
    DropFailed { cause: Seq<char> },
    ReplaceFailed { cause: Seq<char> },
    LoadFailed { path: Seq<char>, cause: Seq<char> },
    ValidationFailed { count: int },
    TestFailed,
    NoTestAnswer,
    SetupFailed,
    Unexpected,
    Remote { message: Seq<char> },
}

impl AppErrorView {
    /// The text that each error is reported with.
    pub open spec fn message(self) -> Seq<char> {
        match self {
            AppErrorView::NoUsersFound => "Error: No users found in a database."@,
            AppErrorView::NoUsersCreated => "Error: No new users created."@,
            AppErrorView::UserCount { found, email } => "Found "@ + decimal_of(found)
                + " users with email "@ + email + ", expected 1."@,
            AppErrorView::AmbiguousUser => "Found more than one user with that name."@,
            AppErrorView::UnknownUser => "No users found with that name."@,
            AppErrorView::DeleteFailed => "Error: Failed to delete."@,
            AppErrorView::FileCount { found } => "Wrong number of files to delete: "@ + decimal_of(found),
            AppErrorView::Terminated => "Application terminated unexpectedly"@,
            AppErrorView::CreateFailed { cause } => "Failed to create a DB, due to: "@ + cause,
            AppErrorView::DropFailed { cause } => "Failed to delete a database, due to: "@ + cause,
            AppErrorView::ReplaceFailed { cause } => "Failed to create a new database, due to: "@ + cause,
            AppErrorView::LoadFailed { path, cause } => "Error loading file content from '"@ + path
                + "', due to: "@ + cause,
            AppErrorView::ValidationFailed { count } => "Validation failed, unexpected number of users: "@
                + signed_decimal_of(count) + ". Terminating..."@,
            AppErrorView::TestFailed => "Test failed. Terminating..."@,
            AppErrorView::NoTestAnswer => "Error: unexpected test query response."@,
            AppErrorView::SetupFailed => "DB setup failed."@,
            AppErrorView::Unexpected => "Unexpected event."@,
            AppErrorView::Remote { message } => message,
        }
    }
}

impl View for AppError {
    type V = AppErrorView;

    open spec fn view(&self) -> AppErrorView {
        match *self {
            AppError::NoUsersFound => AppErrorView::NoUsersFound,
            AppError::NoUsersCreated => AppErrorView::NoUsersCreated,
            AppError::UserCount { found, email } => AppErrorView::UserCount { found: found as nat, email: email@ },
            AppError::AmbiguousUser => AppErrorView::AmbiguousUser,
            AppError::UnknownUser => AppErrorView::UnknownUser,
            AppError::DeleteFailed => AppErrorView::DeleteFailed,
            AppError::FileCount { found } => AppErrorView::FileCount { found: found as nat },
            AppError::Terminated => AppErrorView::Terminated,
            AppError::CreateFailed { cause } => AppErrorView::CreateFailed { cause: cause@ },
            AppError::DropFailed { cause } => AppErrorView::DropFailed { cause: cause@ },
            AppError::ReplaceFailed { cause } => AppErrorView::ReplaceFailed { cause: cause@ },
            AppError::LoadFailed { path, cause } => AppErrorView::LoadFailed { path: path@, cause: cause@ },
            AppError::ValidationFailed { count } => AppErrorView::ValidationFailed { count: count as int },
            AppError::TestFailed => AppErrorView::TestFailed,
            AppError::NoTestAnswer => AppErrorView::NoTestAnswer,
            AppError::SetupFailed => AppErrorView::SetupFailed,
            AppError::Unexpected => AppErrorView::Unexpected,
            AppError::Remote { message } => AppErrorView::Remote { message: message@ },
        }
    }
}

impl AppError {
    /// The text that the error is reported with.
    pub open spec fn message_of(self) -> Seq<char> {
        self@.message()
    }

    pub fn message(&self) -> (r: String)
        ensures
            r@ == self.message_of(),
    {
        match self {
            AppError::NoUsersFound => String::from_str("Error: No users found in a database."),
            AppError::NoUsersCreated => String::from_str("Error: No new users created."),
            AppError::UserCount { found, email } => {
                let mut r = String::from_str("Found ");
                r.append(decimal(*found as u64).as_str());
                r.append(" users with email ");
                r.append(email.as_str());
                r.append(", expected 1.");
                r
            },
            AppError::AmbiguousUser => String::from_str("Found more than one user with that name."),
            AppError::UnknownUser => String::from_str("No users found with that name."),
            AppError::DeleteFailed => String::from_str("Error: Failed to delete."),
            AppError::FileCount { found } => {
                let mut r = String::from_str("Wrong number of files to delete: ");
                r.append(decimal(*found as u64).as_str());
                r
            },
            AppError::Terminated => String::from_str("Application terminated unexpectedly"),
            AppError::CreateFailed { cause } => {
                let mut r = String::from_str("Failed to create a DB, due to: ");
                r.append(cause.as_str());
                r
            },
            AppError::DropFailed { cause } => {
                let mut r = String::from_str("Failed to delete a database, due to: ");
                r.append(cause.as_str());
                r
            },
            AppError::ReplaceFailed { cause } => {
                let mut r = String::from_str("Failed to create a new database, due to: ");
                r.append(cause.as_str());
                r
            },
            AppError::LoadFailed { path, cause } => {
                let mut r = String::from_str("Error loading file content from '");
                r.append(path.as_str());
                r.append("', due to: ");
                r.append(cause.as_str());
                r
            },
            AppError::ValidationFailed { count } => {
                let mut r = String::from_str("Validation failed, unexpected number of users: ");
                r.append(signed_decimal(*count).as_str());
                r.append(". Terminating...");
                r
            },
            AppError::TestFailed => String::from_str("Test failed. Terminating..."),
            AppError::NoTestAnswer => String::from_str("Error: unexpected test query response."),
            AppError::SetupFailed => String::from_str("DB setup failed."),
            AppError::Unexpected => String::from_str("Unexpected event."),
            AppError::Remote { message } => message.clone(),
        }
    }
}

} // verus!
