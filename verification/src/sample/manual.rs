//! The script of a walk through the manager: a fixed list of queries, each
//! with the kind of transaction it runs in and the way that transaction
//! is ended.

use crate::model::{SessionType, TransactionType};
use crate::options::Options;
use crate::query::QueryKind;
use crate::sample::step::{Ending, Request};
use vstd::prelude::*;
use vstd::string::*;

verus! {

/// The name of the database of the walk.
pub const DB_NAME: &'static str = "sample_db";

/// Defines users with their names, e-mail addresses and friendships.
pub const DEFINE_SCHEMA: &'static str =
    "\n                                    define\n                                    email sub attribute, value string;\n                                    name sub attribute, value string;\n                                    friendship sub relation, relates friend;\n                                    user sub entity,\n                                        owns email @key,\n                                        owns name,\n                                        plays friendship:friend;\n                                    admin sub user;\n                                    ";

/// Takes the type of administrators out of the schema.
pub const UNDEFINE_ADMIN: &'static str = "undefine admin sub user;";

/// Inserts two users and their friendship.
pub const INSERT_USERS: &'static str =
    "\n                                    insert\n                                    $user1 isa user, has name 'Alice', has email 'alice@vaticle.com';\n                                    $user2 isa user, has name 'Bob', has email 'bob@vaticle.com';\n                                    $friendship (friend:$user1, friend: $user2) isa friendship;\n                                    ";

/// Inserts a third user as a friend of one that is there.
pub const MATCH_INSERT: &'static str =
    "\n                                        match\n                                        $u isa user, has name 'Bob';\n                                        insert\n                                        $new-u isa user, has name 'Charlie', has email 'charlie@vaticle.com';\n                                        $f($u,$new-u) isa friendship;\n                                        ";

/// Deletes the friendships of the third user.
pub const DELETE_FRIENDSHIP: &'static str =
    "\n                                    match\n                                    $u isa user, has name 'Charlie';\n                                    $f ($u) isa friendship;\n                                    delete\n                                    $f isa friendship;\n                                    ";

/// Gives the third user another e-mail address.
pub const UPDATE_EMAIL: &'static str =
    "\n                                    match\n                                    $u isa user, has name 'Charlie', has email $e;\n                                    delete\n                                    $u has $e;\n                                    insert\n                                    $u has email 'charles@vaticle.com';\n                                    ";

/// Fetches the names and e-mail addresses of all users.
pub const FETCH_USERS: &'static str =
    "\n                                    match\n                                    $u isa user;\n                                    fetch\n                                    $u: name, email;\n                                    ";

/// Gets the e-mail addresses of all users.
pub const GET_EMAILS: &'static str =
    "\n                                match\n                                $u isa user, has email $e;\n                                get\n                                $e;\n                                ";

/// Defines a rule that gives every user a name.
pub const DEFINE_RULE: &'static str =
    "\n                                    define\n                                    rule users:\n                                    when {\n                                        $u isa user;\n                                    } then {\n                                        $u has name 'User';\n                                    };\n                                    ";

/// Gets the users whose e-mail address holds a name, with all their names.
pub const GET_EXPLAINED: &'static str =
    "\n                                match\n                                $u isa user, has email $e, has name $n;\n                                $e contains 'Alice';\n                                get\n                                $u, $n;\n                                ";

/// How the transaction of an entry of the script is ended, once the
/// query is answered.
#[derive(Clone, Copy, Debug, PartialEq, Eq, Structural)]
pub enum Closing {
    /// It is committed.
    Commit,
    /// It is committed if the query answered with exactly one result, and
    /// closed without a commit if not.
    CommitIfSingle,
    /// It is closed.
    Close,
}

/// One entry of the script.
#[derive(Debug, PartialEq, Eq)]
pub struct Entry {
    pub request: Request,
    pub closing: Closing,
}

/// The number of entries of the script.
pub const ENTRIES: usize = 11;

/// The text of the query at a place of the script.
pub open spec fn text_at(place: int) -> Seq<char> {
    if place == 0 {
        DEFINE_SCHEMA@
    } else if place == 1 {
        UNDEFINE_ADMIN@
    } else if place == 2 {
        INSERT_USERS@
    } else if place == 3 {
        MATCH_INSERT@
    } else if place == 4 {
        DELETE_FRIENDSHIP@
    } else if place == 5 {
        UPDATE_EMAIL@
    } else if place == 6 {
        FETCH_USERS@
    } else if place == 7 {
        GET_EMAILS@
    } else if place == 8 {
        DEFINE_RULE@
    } else if place == 9 {
        FETCH_USERS@
    } else {
        GET_EXPLAINED@
    }
}

/// The kind of session at a place of the script.
pub open spec fn session_at(place: int) -> SessionType {
    if place == 0 || place == 1 || place == 8 {
        SessionType::Schema
    } else {
        SessionType::Data
    }
}

/// The kind of transaction at a place of the script.
pub open spec fn transaction_at(place: int) -> TransactionType {
    if place == 6 || place == 7 || place == 9 || place == 10 {
        TransactionType::Read
    } else {
        TransactionType::Write
    }
}

/// The options of the transaction at a place of the script.
pub open spec fn options_at(place: int) -> Options {
    if place == 9 {
        Options { infer: true, explain: false }
    } else if place == 10 {
        Options { infer: true, explain: true }
    } else {
        Options { infer: false, explain: false }
    }
}

/// The kind of query at a place of the script.
pub open spec fn kind_at(place: int) -> QueryKind {
    if place == 0 || place == 8 {
        QueryKind::Define
    } else if place == 4 {
        QueryKind::Delete
    } else if place == 2 || place == 3 {
        QueryKind::Insert
    } else if place == 7 || place == 10 {
        QueryKind::Match
    } else if place == 1 {
        QueryKind::Undefine
    } else if place == 5 {
        QueryKind::Update
    } else {
        QueryKind::Fetch
    }
}

/// The way the transaction at a place of the script is ended.
pub open spec fn closing_at(place: int) -> Closing {
    if place == 6 || place == 7 || place == 9 || place == 10 {
        Closing::Close
    } else if place == 3 || place == 5 {
        Closing::CommitIfSingle
    } else {
        Closing::Commit
    }
}

fn entry(
    session: SessionType,
    transaction: TransactionType,
    options: Options,
    kind: QueryKind,
    text: &str,
    closing: Closing,
) -> (r: Entry)
    ensures
        r.request.is(session, transaction, options, kind, text@),
        r.closing == closing,
{
    Entry { request: Request { session, transaction, options, kind, text: String::from_str(text) }, closing }
}

/// The entry at a place of the script, or `None` behind its end. No
/// entry asks a read transaction to write, every change of the schema
/// runs in a schema session, and only transactions that write are
/// committed.
pub fn manual_script(place: usize) -> (r: Option<Entry>)
    ensures
        r is Some <==> place < ENTRIES,
        r matches Some(e) ==> e.request.is(
            session_at(place as int),
            transaction_at(place as int),
            options_at(place as int),
            kind_at(place as int),
            text_at(place as int),
        ) && e.closing == closing_at(place as int),
        r matches Some(e) ==> e.request.legal(),
        r matches Some(e) ==> (e.request.kind is Define || e.request.kind is Undefine
            <==> e.request.session is Schema),
        r matches Some(e) ==> (e.closing is Close <==> e.request.transaction is Read),
{
    let plain = Options::new();
    if place == 0 {
        Some(
            entry(
                SessionType::Schema,
                TransactionType::Write,
                plain,
                QueryKind::Define,
                DEFINE_SCHEMA,
                Closing::Commit,
            ),
        )
    } else if place == 1 {
        Some(
            entry(
                SessionType::Schema,
                TransactionType::Write,
                plain,
                QueryKind::Undefine,
                UNDEFINE_ADMIN,
                Closing::Commit,
            ),
        )
    } else if place == 2 {
        Some(
            entry(
                SessionType::Data,
                TransactionType::Write,
                plain,
                QueryKind::Insert,
                INSERT_USERS,
                Closing::Commit,
            ),
        )
    } else if place == 3 {
        Some(
            entry(
                SessionType::Data,
                TransactionType::Write,
                plain,
                QueryKind::Insert,
                MATCH_INSERT,
                Closing::CommitIfSingle,
            ),
        )
    } else if place == 4 {
        Some(
            entry(
                SessionType::Data,
                TransactionType::Write,
                plain,
                QueryKind::Delete,
                DELETE_FRIENDSHIP,
                Closing::Commit,
            ),
        )
    } else if place == 5 {
        Some(
            entry(
                SessionType::Data,
                TransactionType::Write,
                plain,
                QueryKind::Update,
                UPDATE_EMAIL,
                Closing::CommitIfSingle,
            ),
        )
    } else if place == 6 {
        Some(
            entry(
                SessionType::Data,
                TransactionType::Read,
                plain,
                QueryKind::Fetch,
                FETCH_USERS,
                Closing::Close,
            ),
        )
    } else if place == 7 {
        Some(
            entry(
                SessionType::Data,
                TransactionType::Read,
                plain,
                QueryKind::Match,
                GET_EMAILS,
                Closing::Close,
            ),
        )
    } else if place == 8 {
        Some(
            entry(
                SessionType::Schema,
                TransactionType::Write,
                plain,
                QueryKind::Define,
                DEFINE_RULE,
                Closing::Commit,
            ),
        )
    } else if place == 9 {
        Some(
            entry(
                SessionType::Data,
                TransactionType::Read,
                plain.infer(true),
                QueryKind::Fetch,
                FETCH_USERS,
                Closing::Close,
            ),
        )
    } else if place == 10 {
        Some(
            entry(
                SessionType::Data,
                TransactionType::Read,
                plain.infer(true).explain(true),
                QueryKind::Match,
                GET_EXPLAINED,
                Closing::Close,
            ),
        )
    } else {
        None
    }
}

/// The way a transaction of the script is ended, from the number of
/// results that its query answered with.
pub fn closing_ending(closing: Closing, results: usize) -> (r: Ending)
    ensures
        r == (match closing {
            Closing::Commit => Ending::Commit,
            Closing::CommitIfSingle => if results == 1 {
                Ending::Commit
            } else {
                Ending::Close
            },
            Closing::Close => Ending::Close,
        }),
{
    match closing {
        Closing::Commit => Ending::Commit,
        Closing::CommitIfSingle => {
            if results == 1 {
                Ending::Commit
            } else {
                Ending::Close
            }
        },
        Closing::Close => Ending::Close,
    }
}

} // verus!
