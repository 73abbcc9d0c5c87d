//! Setting up the database of the sample application: whether to create
//! it, replace it or keep it, and the steps from there to a database that
//! holds the schema and the data and has passed its check.

use crate::model::{SessionType, TransactionType};
use crate::options::Options;
use crate::query::QueryKind;
use crate::sample::error::{AppError, AppErrorView};
use crate::sample::step::{Ending, Request, Step};
use crate::text::{is_yes, says_yes};
use vstd::prelude::*;
use vstd::string::*;

verus! {

/// What the user is asked before a database is replaced.
pub const PROMPT: &'static str = "Found a pre-existing database. Do you want to replace it? (Y/N) ";

/// What is to happen to a database that is already there.
#[derive(Clone, Copy, Debug, PartialEq, Eq, Structural)]
pub enum ResetPolicy {
    /// Delete it and set it up again, without asking.
    AlwaysReplace,
    /// Ask the user, once.
    PromptUser,
    /// Keep it, without asking.
    NeverReplace,
}

/// What is done about the database.
#[derive(Clone, Copy, Debug, PartialEq, Eq, Structural)]
pub enum DatabasePlan {
    /// It is not there: create it.
    Create,
    /// It is there: delete it and create it again.
    Replace,
    /// It is there: keep it as it is.
    Reuse,
    /// It is there, and the user has yet to say what to do with it.
    Ask,
}

impl ResetPolicy {
    /// The policy that stands for the flag "reset the database": replace
    /// without asking where it is set, ask where it is not.
    pub fn from_flag(db_reset: bool) -> (r: ResetPolicy)
        ensures
            r == (if db_reset {
                ResetPolicy::AlwaysReplace
            } else {
                ResetPolicy::PromptUser
            }),
    {
        if db_reset {
            ResetPolicy::AlwaysReplace
        } else {
            ResetPolicy::PromptUser
        }
    }
}

/// The plan for a database, from whether it exists, the policy, and the
/// answer of the user where there is one.
pub open spec fn plan_of(exists: bool, policy: ResetPolicy, answer: Option<Seq<char>>) -> DatabasePlan {
    if !exists {
        DatabasePlan::Create
    } else {
        match policy {
            ResetPolicy::AlwaysReplace => DatabasePlan::Replace,
            ResetPolicy::NeverReplace => DatabasePlan::Reuse,
            ResetPolicy::PromptUser => match answer {
                None => DatabasePlan::Ask,
                Some(line) => if says_yes(line) {
                    DatabasePlan::Replace
                } else {
                    DatabasePlan::Reuse
                },
            },
        }
    }
}

/// Decides what is done about the database, before anything is changed.
/// `answer` is the line that the user typed, where the user was asked.
pub fn try_create_database(exists: bool, policy: ResetPolicy, answer: Option<&str>) -> (r: DatabasePlan)
    ensures
        r == plan_of(
            exists,
            policy,
            match answer {
                Some(line) => Some(line@),
                None => None,
            },
        ),
{
    if !exists {
        return DatabasePlan::Create;
    }
    match policy {
        ResetPolicy::AlwaysReplace => DatabasePlan::Replace,
        ResetPolicy::NeverReplace => DatabasePlan::Reuse,
        ResetPolicy::PromptUser => match answer {
            None => DatabasePlan::Ask,
            Some(line) => if is_yes(line) {
                DatabasePlan::Replace
            } else {
                DatabasePlan::Reuse
            },
        },
    }
}

/// Where the setup stands: what it has asked for and waits to hear of.
#[derive(Clone, Copy, Debug, PartialEq, Eq, Structural)]
pub enum Stage {
    Start,
    /// Whether the database exists.
    Checking,
    /// What the user says to replacing it.
    Asking,
    /// The database that is to be deleted.
    Locating,
    Deleting,
    Creating,
    DefiningSchema,
    LoadingData,
    Validating,
    Finished,
}

/// How a failure of the server is reported.
#[derive(Clone, Copy, Debug, PartialEq, Eq, Structural)]
pub enum Reporting {
    /// The error is handed on as it came.
    AsItCame,
    /// A failed deletion or creation is reported as such, with the error
    /// of the server as its cause; and whatever fails after a database
    /// was deleted is reported as the failure to create it anew.
    Explained,
}

#[derive(Clone, Copy, Debug, PartialEq, Eq, Structural)]
pub struct SetupState {
    pub policy: ResetPolicy,
    pub reporting: Reporting,
    pub stage: Stage,
    /// The database was there and has been deleted.
    pub replacing: bool,
}

/// What the caller reports of the action it was asked for.
#[derive(Debug, PartialEq, Eq)]
pub enum SetupEvent {
    /// Nothing yet: the setup is to begin.
    Begin,
    /// The server said whether the database exists.
    Exists(bool),
    /// The user typed this line.
    Answer(String),
    /// The action was carried out.
    Done,
    /// The action failed.
    Failed(AppError),
}

/// What the caller is asked to do next.
#[derive(Debug, PartialEq, Eq)]
pub enum SetupAction {
    /// Ask the server whether the database exists.
    CheckExistence,
    /// Show `PROMPT` and read a line.
    Ask,
    /// Get the database from the server.
    Locate,
    /// Delete the database.
    Delete,
    /// Create the database.
    Create,
    /// Define the schema in the database.
    DefineSchema,
    /// Load the data into the database.
    LoadData,
    /// Check what the database holds.
    Validate,
    /// Nothing more: this is what the setup came to.
    Finish(Result<bool, AppError>),
}

/// An action, with the error it may carry as its view.
pub enum ActionView {
    CheckExistence,
    Ask,
    Locate,
    Delete,
    Create,
    DefineSchema,
    LoadData,
    Validate,
    Succeed(bool),
    Fail(AppErrorView),
}

impl View for SetupAction {
    type V = ActionView;

    open spec fn view(&self) -> ActionView {
        match *self {
            SetupAction::CheckExistence => ActionView::CheckExistence,
            SetupAction::Ask => ActionView::Ask,
            SetupAction::Locate => ActionView::Locate,
            SetupAction::Delete => ActionView::Delete,
            SetupAction::Create => ActionView::Create,
            SetupAction::DefineSchema => ActionView::DefineSchema,
            SetupAction::LoadData => ActionView::LoadData,
            SetupAction::Validate => ActionView::Validate,
            SetupAction::Finish(Ok(value)) => ActionView::Succeed(value),
            SetupAction::Finish(Err(error)) => ActionView::Fail(error@),
        }
    }
}

impl SetupState {
    /// The state in which a setup begins.
    pub open spec fn initial(policy: ResetPolicy, reporting: Reporting) -> SetupState {
        SetupState { policy, reporting, stage: Stage::Start, replacing: false }
    }

    pub open spec fn at(self, stage: Stage) -> SetupState {
        SetupState { stage, ..self }
    }

    /// The error of a failure while the database is created and filled.
    /// Where failures are explained and the database is being replaced,
    /// the error says so and gives the text of what failed as the cause.
    pub open spec fn wrapped(self, error: AppErrorView) -> AppErrorView {
        if self.reporting is Explained && self.replacing {
            AppErrorView::ReplaceFailed { cause: error.message() }
        } else {
            error
        }
    }

    /// The error of a deletion that the server failed.
    pub open spec fn drop_failure(self, error: AppErrorView) -> AppErrorView {
        if self.reporting is Explained {
            AppErrorView::DropFailed { cause: error.message() }
        } else {
            error
        }
    }

    /// The error of a creation that the server failed.
    pub open spec fn create_failure(self, error: AppErrorView) -> AppErrorView {
        if self.reporting is Explained {
            self.wrapped(AppErrorView::CreateFailed { cause: error.message() })
        } else {
            error
        }
    }

    /// The state and the action with which a plan is taken up.
    pub open spec fn follow(self, plan: DatabasePlan) -> (SetupState, ActionView) {
        match plan {
            DatabasePlan::Create => (self.at(Stage::Creating), ActionView::Create),
            DatabasePlan::Replace => (self.at(Stage::Locating), ActionView::Locate),
            DatabasePlan::Ask => (self.at(Stage::Asking), ActionView::Ask),
            DatabasePlan::Reuse => (self.at(Stage::Validating), ActionView::Validate),
        }
    }

    /// The state and the action that follow on an event. What is done
    /// about the database is what `plan_of` says: once when the server
    /// has said whether it exists, and once more when the user has
    /// answered.
    pub open spec fn next(self, event: SetupEvent) -> (SetupState, ActionView) {
        match (self.stage, event) {
            (Stage::Start, SetupEvent::Begin) => (self.at(Stage::Checking), ActionView::CheckExistence),
            (Stage::Checking, SetupEvent::Exists(exists)) => self.follow(plan_of(exists, self.policy, None)),
            (Stage::Checking, SetupEvent::Failed(error)) => (
                self.at(Stage::Finished),
                ActionView::Fail(error@),
            ),
            (Stage::Asking, SetupEvent::Answer(line)) => self.follow(
                plan_of(true, self.policy, Some(line@)),
            ),
            (Stage::Asking, SetupEvent::Failed(error)) => (
                self.at(Stage::Finished),
                ActionView::Fail(error@),
            ),
            (Stage::Locating, SetupEvent::Done) => (self.at(Stage::Deleting), ActionView::Delete),
            (Stage::Locating, SetupEvent::Failed(error)) => (
                self.at(Stage::Finished),
                ActionView::Fail(error@),
            ),
            (Stage::Deleting, SetupEvent::Done) => (
                SetupState { stage: Stage::Creating, replacing: true, ..self },
                ActionView::Create,
            ),
            (Stage::Deleting, SetupEvent::Failed(error)) => (
                self.at(Stage::Finished),
                ActionView::Fail(self.drop_failure(error@)),
            ),
            (Stage::Creating, SetupEvent::Done) => (self.at(Stage::DefiningSchema), ActionView::DefineSchema),
            (Stage::Creating, SetupEvent::Failed(error)) => (
                self.at(Stage::Finished),
                ActionView::Fail(self.create_failure(error@)),
            ),
            (Stage::DefiningSchema, SetupEvent::Done) => (self.at(Stage::LoadingData), ActionView::LoadData),
            (Stage::DefiningSchema, SetupEvent::Failed(error)) => (
                self.at(Stage::Finished),
                ActionView::Fail(self.wrapped(error@)),
            ),
            (Stage::LoadingData, SetupEvent::Done) => (self.at(Stage::Validating), ActionView::Validate),
            (Stage::LoadingData, SetupEvent::Failed(error)) => (
                self.at(Stage::Finished),
                ActionView::Fail(self.wrapped(error@)),
            ),
            (Stage::Validating, SetupEvent::Done) => (self.at(Stage::Finished), ActionView::Succeed(true)),
            (Stage::Validating, SetupEvent::Failed(error)) => (
                self.at(Stage::Finished),
                ActionView::Fail(error@),
            ),
            _ => (self.at(Stage::Finished), ActionView::Fail(AppErrorView::Unexpected)),
        }
    }

    /// The state after a sequence of events, the first one first.
    pub open spec fn run(self, events: Seq<SetupEvent>) -> SetupState
        decreases events.len(),
    {
        if events.len() == 0 {
            self
        } else {
            self.run(events.drop_last()).next(events.last()).0
        }
    }

    /// A setup that is about to begin.
    pub fn new(policy: ResetPolicy, reporting: Reporting) -> (r: SetupState)
        ensures
            r == SetupState::initial(policy, reporting),
    {
        SetupState { policy, reporting, stage: Stage::Start, replacing: false }
    }

    pub fn is_finished(&self) -> (r: bool)
        ensures
            r == (self.stage is Finished),
    {
        match self.stage {
            Stage::Finished => true,
            _ => false,
        }
    }

    fn explains(&self) -> (r: bool)
        ensures
            r == (self.reporting is Explained),
    {
        match self.reporting {
            Reporting::Explained => true,
            Reporting::AsItCame => false,
        }
    }

    fn moved(self, stage: Stage) -> (r: SetupState)
        ensures
            r == self.at(stage),
    {
        SetupState { policy: self.policy, reporting: self.reporting, stage, replacing: self.replacing }
    }

    fn fail(self, error: AppError) -> (r: (SetupState, SetupAction))
        ensures
            r.0 == self.at(Stage::Finished),
            r.1@ == ActionView::Fail(error@),
    {
        (self.moved(Stage::Finished), SetupAction::Finish(Err(error)))
    }

    /// Takes a plan up.
    fn take_up(self, plan: DatabasePlan) -> (r: (SetupState, SetupAction))
        ensures
            r.0 == self.follow(plan).0,
            r.1@ == self.follow(plan).1,
    {
        match plan {
            DatabasePlan::Create => (self.moved(Stage::Creating), SetupAction::Create),
            DatabasePlan::Replace => (self.moved(Stage::Locating), SetupAction::Locate),
            DatabasePlan::Ask => (self.moved(Stage::Asking), SetupAction::Ask),
            DatabasePlan::Reuse => (self.moved(Stage::Validating), SetupAction::Validate),
        }
    }

    /// The error of a failure while the database is created and filled.
    fn wrap(self, error: AppError) -> (r: AppError)
        ensures
            r@ == self.wrapped(error@),
    {
        if self.explains() && self.replacing {
            AppError::ReplaceFailed { cause: error.message() }
        } else {
            error
        }
    }
}

/// Sets the database up, one step at a time: takes in what came of the
/// last action and says what to do next, until the action is `Finish`.
/// A database that is not there is created; one that is there is
/// replaced or kept as the policy says, and the user is asked at most
/// once. A database that was created gets the schema and then the data.
/// Every database is checked at the end. The first failure ends the
/// setup, and is reported as the state says; an event that does not
/// answer the last action is a failure.
pub fn db_setup(state: SetupState, event: SetupEvent) -> (r: (SetupState, SetupAction))
    ensures
        r.0 == state.next(event).0,
        r.1@ == state.next(event).1,
{
    match state.stage {
        Stage::Start => match event {
            SetupEvent::Begin => (state.moved(Stage::Checking), SetupAction::CheckExistence),
            _ => state.fail(AppError::Unexpected),
        },
        Stage::Checking => match event {
            SetupEvent::Exists(exists) => state.take_up(try_create_database(exists, state.policy, None)),
            SetupEvent::Failed(error) => state.fail(error),
            _ => state.fail(AppError::Unexpected),
        },
        Stage::Asking => match event {
            SetupEvent::Answer(line) => state.take_up(
                try_create_database(true, state.policy, Some(line.as_str())),
            ),
            SetupEvent::Failed(error) => state.fail(error),
            _ => state.fail(AppError::Unexpected),
        },
        Stage::Locating => match event {
            SetupEvent::Done => (state.moved(Stage::Deleting), SetupAction::Delete),
            SetupEvent::Failed(error) => state.fail(error),
            _ => state.fail(AppError::Unexpected),
        },
        Stage::Deleting => match event {
            SetupEvent::Done => (
                SetupState {
                    policy: state.policy,
                    reporting: state.reporting,
                    stage: Stage::Creating,
                    replacing: true,
                },
                SetupAction::Create,
            ),
            SetupEvent::Failed(error) => {
                if state.explains() {
                    state.fail(AppError::DropFailed { cause: error.message() })
                } else {
                    state.fail(error)
                }
            },
            _ => state.fail(AppError::Unexpected),
        },
        Stage::Creating => match event {
            SetupEvent::Done => (state.moved(Stage::DefiningSchema), SetupAction::DefineSchema),
            SetupEvent::Failed(error) => {
                if state.explains() {
                    let failure = state.wrap(AppError::CreateFailed { cause: error.message() });
                    state.fail(failure)
                } else {
                    state.fail(error)
                }
            },
            _ => state.fail(AppError::Unexpected),
        },
        Stage::DefiningSchema => match event {
            SetupEvent::Done => (state.moved(Stage::LoadingData), SetupAction::LoadData),
            SetupEvent::Failed(error) => {
                let failure = state.wrap(error);
                state.fail(failure)
            },
            _ => state.fail(AppError::Unexpected),
        },
        Stage::LoadingData => match event {
            SetupEvent::Done => (state.moved(Stage::Validating), SetupAction::Validate),
            SetupEvent::Failed(error) => {
                let failure = state.wrap(error);
                state.fail(failure)
            },
            _ => state.fail(AppError::Unexpected),
        },
        Stage::Validating => match event {
            SetupEvent::Done => (state.moved(Stage::Finished), SetupAction::Finish(Ok(true))),
            SetupEvent::Failed(error) => state.fail(error),
            _ => state.fail(AppError::Unexpected),
        },
        Stage::Finished => state.fail(AppError::Unexpected),
    }
}

/// Defines the schema. `content` is what reading the file at `path` came
/// to: its text, or why it could not be read; `defined` says whether the
/// server has answered the definition. The definition is committed.
pub fn db_schema_setup(path: &str, content: Result<String, String>, defined: bool) -> (r: Step<()>)
    ensures
        r matches Step::Send(request) ==> request.legal(),
        match content {
            Err(cause) => r.fails(Ending::Close, AppErrorView::LoadFailed { path: path@, cause: cause@ }),
            Ok(text) => if defined {
                r.succeeds(Ending::Commit, ())
            } else {
                r.sends(
                    SessionType::Schema,
                    TransactionType::Schema,
                    Options::none(),
                    QueryKind::Define,
                    text@,
                )
            },
        },
{
    match content {
        Err(cause) => Step::Finish {
            ending: Ending::Close,
            result: Err(AppError::LoadFailed { path: String::from_str(path), cause }),
        },
        Ok(text) => {
            if defined {
                Step::Finish { ending: Ending::Commit, result: Ok(()) }
            } else {
                Step::Send(
                    Request {
                        session: SessionType::Schema,
                        transaction: TransactionType::Schema,
                        options: Options::new(),
                        kind: QueryKind::Define,
                        text,
                    },
                )
            }
        },
    }
}

/// Loads the data. `content` is what reading the file at `path` came to:
/// its text, or why it could not be read; `inserted` is the number of
/// rows that the insert answered with, once it is there. The insert is
/// committed whatever that number: to insert nothing is no error.
pub fn db_dataset_setup(path: &str, content: Result<String, String>, inserted: Option<usize>) -> (r: Step<
    (),
>)
    ensures
        r matches Step::Send(request) ==> request.legal(),
        match content {
            Err(cause) => r.fails(Ending::Close, AppErrorView::LoadFailed { path: path@, cause: cause@ }),
            Ok(text) => match inserted {
                Some(_) => r.succeeds(Ending::Commit, ()),
                None => r.sends(
                    SessionType::Data,
                    TransactionType::Write,
                    Options::none(),
                    QueryKind::Insert,
                    text@,
                ),
            },
        },
{
    match content {
        Err(cause) => Step::Finish {
            ending: Ending::Close,
            result: Err(AppError::LoadFailed { path: String::from_str(path), cause }),
        },
        Ok(text) => match inserted {
            Some(_) => Step::Finish { ending: Ending::Commit, result: Ok(()) },
            None => Step::Send(
                Request {
                    session: SessionType::Data,
                    transaction: TransactionType::Write,
                    options: Options::new(),
                    kind: QueryKind::Insert,
                    text,
                },
            ),
        },
    }
}

/// What the application makes of a setup: whatever made it fail, the
/// application reports that the setup failed.
pub fn setup_outcome(setup: Result<bool, AppError>) -> (r: Result<(), AppError>)
    ensures
        setup is Ok ==> r is Ok,
        setup is Err ==> (r matches Err(e) && e is SetupFailed),
{
    match setup {
        Ok(_) => Ok(()),
        Err(_) => Err(AppError::SetupFailed),
    }
}

/// How far a stage is from the end of the setup, in steps at most.
pub open spec fn steps_left(stage: Stage) -> nat {
    match stage {
        Stage::Start => 9,
        Stage::Checking => 8,
        Stage::Asking => 7,
        Stage::Locating => 6,
        Stage::Deleting => 5,
        Stage::Creating => 4,
        Stage::DefiningSchema => 3,
        Stage::LoadingData => 2,
        Stage::Validating => 1,
        Stage::Finished => 0,
    }
}

/// Every step brings the setup nearer to its end, whatever the caller
/// reports: a setup finishes within nine steps, and asks the user at most
/// once.
pub proof fn setup_makes_progress(state: SetupState, event: SetupEvent)
    requires
        !(state.stage is Finished),
    ensures
        steps_left(state.next(event).0.stage) < steps_left(state.stage),
        state.next(event).0.policy == state.policy,
        state.next(event).0.reporting == state.reporting,
        (state.next(event).1 is Succeed || state.next(event).1 is Fail) <==> state.next(event).0.stage
            is Finished,
{
}

/// The states that a setup can be in.
pub open spec fn reachable(state: SetupState) -> bool {
    &&& state.stage is Asking ==> state.policy is PromptUser
    &&& state.stage is Locating || state.stage is Deleting ==> !(state.policy is NeverReplace)
    &&& state.replacing ==> !(state.policy is NeverReplace)
    &&& state.replacing ==> !(state.stage is Start || state.stage is Checking || state.stage is Asking
        || state.stage is Locating || state.stage is Deleting)
}

/// A setup begins in a state it can be in, and stays in such states.
pub proof fn setup_stays_reachable(state: SetupState, event: SetupEvent)
    requires
        reachable(state),
    ensures
        reachable(SetupState::initial(state.policy, state.reporting)),
        reachable(state.next(event).0),
{
}

/// Nothing is deleted without consent. The setup asks for the database
/// to be located or deleted only where it exists and the policy is to
/// replace it, or the user has just said yes; it asks the user only where
/// the policy is to ask. Under the policy never to replace, it asks
/// for none of these.
pub proof fn setup_deletes_only_with_consent(state: SetupState, event: SetupEvent)
    requires
        reachable(state),
    ensures
        state.next(event).1 is Locate ==> (state.stage is Checking && event == SetupEvent::Exists(true)
            && state.policy is AlwaysReplace) || (state.stage is Asking && state.policy is PromptUser && (
        event matches SetupEvent::Answer(line) && says_yes(line@))),
        state.next(event).1 is Delete ==> state.stage is Locating && event is Done,
        state.next(event).1 is Ask ==> state.stage is Checking && event == SetupEvent::Exists(true)
            && state.policy is PromptUser,
        state.policy is NeverReplace ==> !(state.next(event).1 is Locate) && !(state.next(event).1
            is Delete) && !(state.next(event).1 is Ask),
{
}

/// Whatever the caller reports, a setup is finished after nine events,
/// and is in a state that a setup can be in after any number of them.
pub proof fn setup_finishes(policy: ResetPolicy, reporting: Reporting, events: Seq<SetupEvent>)
    ensures
        SetupState::initial(policy, reporting).run(events).policy == policy,
        SetupState::initial(policy, reporting).run(events).reporting == reporting,
        reachable(SetupState::initial(policy, reporting).run(events)),
        steps_left(SetupState::initial(policy, reporting).run(events).stage) + events.len() <= 9
            || SetupState::initial(policy, reporting).run(events).stage is Finished,
        events.len() >= 9 ==> SetupState::initial(policy, reporting).run(events).stage is Finished,
    decreases events.len(),
{
    if events.len() > 0 {
        let before = SetupState::initial(policy, reporting).run(events.drop_last());
        setup_finishes(policy, reporting, events.drop_last());
        setup_stays_reachable(before, events.last());
        if !(before.stage is Finished) {
            setup_makes_progress(before, events.last());
        }
    }
}

/// Under the policy never to replace, whatever the caller reports and
/// however long, the setup never asks for the database to be located or
/// deleted, and never asks the user.
pub proof fn setup_never_replaces_where_forbidden(
    reporting: Reporting,
    events: Seq<SetupEvent>,
    event: SetupEvent,
)
    ensures
        ({
            let action = SetupState::initial(ResetPolicy::NeverReplace, reporting).run(events).next(
                event,
            ).1;
            !(action is Locate) && !(action is Delete) && !(action is Ask)
        }),
{
    setup_finishes(ResetPolicy::NeverReplace, reporting, events);
    setup_deletes_only_with_consent(
        SetupState::initial(ResetPolicy::NeverReplace, reporting).run(events),
        event,
    );
}

/// The setup does about the database what `try_create_database` plans.
/// When the server has said whether the database exists, the setup asks
/// for the creation, the location of the database to delete, the word of
/// the user, or the check of what is there, as the plan without an
/// answer is to create, replace, ask or reuse. When the user has
/// answered, it asks for the location or the check, as the plan with
/// that answer is to replace or to reuse.
pub proof fn setup_follows_the_plan(state: SetupState, exists: bool, line: String)
    ensures
        state.stage is Checking ==> state.next(SetupEvent::Exists(exists)).1 == (match plan_of(
            exists,
            state.policy,
            None,
        ) {
            DatabasePlan::Create => ActionView::Create,
            DatabasePlan::Replace => ActionView::Locate,
            DatabasePlan::Ask => ActionView::Ask,
            DatabasePlan::Reuse => ActionView::Validate,
        }),
        state.stage is Asking ==> state.next(SetupEvent::Answer(line)).1 == (match plan_of(
            true,
            state.policy,
            Some(line@),
        ) {
            DatabasePlan::Replace => ActionView::Locate,
            _ => ActionView::Validate,
        }),
        state.stage is Asking && state.policy is PromptUser ==> (state.next(SetupEvent::Answer(line)).1
            is Locate <==> says_yes(line@)),
{
}

/// A database that is not there is created without a word to the user
/// and without a deletion, whatever the policy: the setup asks whether
/// it exists, and on a no asks for its creation. If the creation fails,
/// the setup ends there; the error is the one of the server, unchanged
/// where errors are handed on as they came.
pub proof fn missing_database_is_created(policy: ResetPolicy, reporting: Reporting, error: AppError)
    ensures
        ({
            let first = SetupState::initial(policy, reporting).next(SetupEvent::Begin);
            let second = first.0.next(SetupEvent::Exists(false));
            let done = second.0.next(SetupEvent::Done);
            let failed = second.0.next(SetupEvent::Failed(error));
            &&& first.1 == ActionView::CheckExistence
            &&& second.1 == ActionView::Create
            &&& done.1 == ActionView::DefineSchema
            &&& failed.0.stage is Finished
            &&& reporting is AsItCame ==> failed.1 == ActionView::Fail(error@)
            &&& reporting is Explained ==> failed.1 == ActionView::Fail(
                AppErrorView::CreateFailed { cause: error@.message() },
            )
        }),
{
}

/// A failure of the server ends the setup at once, whatever the stage.
/// Where errors are handed on as they came, the error of the setup is
/// the one of the server, unchanged.
pub proof fn failure_ends_the_setup(state: SetupState, error: AppError)
    ensures
        state.next(SetupEvent::Failed(error)).0.stage is Finished,
        state.next(SetupEvent::Failed(error)).1 is Fail,
        state.reporting is AsItCame && !(state.stage is Start) && !(state.stage is Finished)
            ==> state.next(SetupEvent::Failed(error)).1 == ActionView::Fail(error@),
{
}

/// A setup that is finished stays finished and asks for nothing more,
/// whatever the caller reports. So a deletion that failed is never
/// followed by a creation, and no step follows one that failed.
pub proof fn finished_setup_asks_for_nothing(state: SetupState, events: Seq<SetupEvent>, event: SetupEvent)
    requires
        state.stage is Finished,
    ensures
        state.run(events).stage is Finished,
        state.run(events).next(event).1 == ActionView::Fail(AppErrorView::Unexpected),
    decreases events.len(),
{
    if events.len() > 0 {
        finished_setup_asks_for_nothing(state, events.drop_last(), events.last());
    }
}

/// The setup succeeds only when the check of the database has passed,
/// and it creates a database only where none is there: where the server
/// said so, or where the one that was there has been deleted.
pub proof fn setup_succeeds_only_after_validation(state: SetupState, event: SetupEvent)
    ensures
        state.next(event).1 is Succeed ==> state.stage is Validating && event is Done && state.next(
            event,
        ).1 == ActionView::Succeed(true),
        state.next(event).1 is Create ==> (state.stage is Checking && event == SetupEvent::Exists(false))
            || (state.stage is Deleting && event is Done),
{
}

} // verus!
