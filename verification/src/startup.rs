//! What the program does before it serves requests: connect, migrate, and
//! make sure that the administrator account exists.
//!
//! The routine is a state machine. It asks for each piece of outside work
//! with a [`BootRequest`] and is resumed with the [`BootReply`]; it ends by
//! telling the program to launch or to abort.

use crate::models::role::Role;
use crate::models::user::{UserRegister, UserRegisterView, ADMIN_USERNAME};
use vstd::prelude::*;
use vstd::string::*;

verus! {

/// The environment variable that holds the administrator's e-mail address.
pub const ADMIN_EMAIL: &'static str = "ADMIN_EMAIL";

/// The environment variable that holds the administrator's password.
pub const ADMIN_PASSWORD: &'static str = "ADMIN_PASSWORD";

/// One piece of outside work that startup needs.
#[derive(Debug, PartialEq)]
pub enum BootRequest {
    /// Load the environment file, if there is one.
    LoadEnvironmentFile,
    /// Open the connection to the database.
    Connect,
    /// Apply the migrations that are pending.
    Migrate,
    /// Find out whether an account with this user name exists.
    UsernameExists(String),
    /// Read this environment variable.
    ReadVariable(String),
    /// Register this account.
    CreateUser(UserRegister),
    /// Give the account with this id the role.
    UpdateRole { user_id: i64, role: Role },
}

/// How a piece of outside work ended.
#[derive(Debug, PartialEq)]
pub enum BootReply {
    /// It did not succeed, or the variable is not set.
    Failed,
    /// It succeeded and has nothing to report.
    Done,
    /// Whether the account exists.
    Exists(bool),
    /// The value of the variable.
    Value(String),
    /// The id of the account that was registered.
    Created(i64),
}

/// The step that made startup give up.
#[derive(Debug, Clone, Copy, PartialEq, Eq, Structural)]
pub enum BootFailure {
    /// No connection to the database.
    Connect,
    /// The migrations could not be applied.
    Migrate,
    /// The store could not say whether the administrator exists.
    AdminLookup,
    /// The administrator's e-mail address is not configured.
    MissingEmail,
    /// The administrator's password is not configured.
    MissingPassword,
    /// The administrator could not be registered.
    CreateAdmin,
    /// The administrator could not be given its role.
    AssignRole,
    /// The reply did not answer the request.
    UnexpectedReply,
}

/// What startup wants next.
#[derive(Debug, PartialEq)]
pub enum BootProgress {
    /// This work is to be done; its reply resumes startup.
    Ask(BootRequest),
    /// Everything is in place: serve requests.
    Launch,
    /// Startup cannot go on: the program has to end.
    Abort(BootFailure),
}

/// How far startup has come: the work whose reply it waits for.
#[derive(Debug, PartialEq)]
pub enum Stage {
    LoadingEnvironment,
    Connecting,
    Migrating,
    LookingForAdmin,
    ReadingEmail,
    ReadingPassword { email: String },
    CreatingAdmin,
    AssigningRole,
    Over,
}

/// A request with its texts as sequences of characters.
pub enum BootRequestView {
    LoadEnvironmentFile,
    Connect,
    Migrate,
    UsernameExists(Seq<char>),
    ReadVariable(Seq<char>),
    CreateUser(UserRegisterView),
    UpdateRole { user_id: i64, role: Role },
}

impl View for BootRequest {
    type V = BootRequestView;

    open spec fn view(&self) -> BootRequestView {
        match *self {
            BootRequest::LoadEnvironmentFile => BootRequestView::LoadEnvironmentFile,
            BootRequest::Connect => BootRequestView::Connect,
            BootRequest::Migrate => BootRequestView::Migrate,
            BootRequest::UsernameExists(name) => BootRequestView::UsernameExists(name@),
            BootRequest::ReadVariable(name) => BootRequestView::ReadVariable(name@),
            BootRequest::CreateUser(registration) => BootRequestView::CreateUser(registration@),
            BootRequest::UpdateRole { user_id, role } => BootRequestView::UpdateRole {
                user_id,
                role,
            },
        }
    }
}

/// A reply with its text as a sequence of characters.
pub enum BootReplyView {
    Failed,
    Done,
    Exists(bool),
    Value(Seq<char>),
    Created(i64),
}

impl View for BootReply {
    type V = BootReplyView;

    open spec fn view(&self) -> BootReplyView {
        match *self {
            BootReply::Failed => BootReplyView::Failed,
            BootReply::Done => BootReplyView::Done,
            BootReply::Exists(found) => BootReplyView::Exists(found),
            BootReply::Value(value) => BootReplyView::Value(value@),
            BootReply::Created(user_id) => BootReplyView::Created(user_id),
        }
    }
}

/// What startup wants next, over the view of the request.
pub enum BootProgressView {
    Ask(BootRequestView),
    Launch,
    Abort(BootFailure),
}

impl View for BootProgress {
    type V = BootProgressView;

    open spec fn view(&self) -> BootProgressView {
        match *self {
            BootProgress::Ask(request) => BootProgressView::Ask(request@),
            BootProgress::Launch => BootProgressView::Launch,
            BootProgress::Abort(failure) => BootProgressView::Abort(failure),
        }
    }
}

/// A stage with the text that it remembers as a sequence of characters.
pub enum StageView {
    LoadingEnvironment,
    Connecting,
    Migrating,
    LookingForAdmin,
    ReadingEmail,
    ReadingPassword { email: Seq<char> },
    CreatingAdmin,
    AssigningRole,
    Over,
}

impl View for Stage {
    type V = StageView;

    open spec fn view(&self) -> StageView {
        match *self {
            Stage::LoadingEnvironment => StageView::LoadingEnvironment,
            Stage::Connecting => StageView::Connecting,
            Stage::Migrating => StageView::Migrating,
            Stage::LookingForAdmin => StageView::LookingForAdmin,
            Stage::ReadingEmail => StageView::ReadingEmail,
            Stage::ReadingPassword { email } => StageView::ReadingPassword { email: email@ },
            Stage::CreatingAdmin => StageView::CreatingAdmin,
            Stage::AssigningRole => StageView::AssigningRole,
            Stage::Over => StageView::Over,
        }
    }
}

/// Startup has ended and the program launches.
pub open spec fn launch() -> (StageView, BootProgressView) {
    (StageView::Over, BootProgressView::Launch)
}

/// Startup has ended and the program aborts.
pub open spec fn abort(failure: BootFailure) -> (StageView, BootProgressView) {
    (StageView::Over, BootProgressView::Abort(failure))
}

/// Startup goes on to `stage` and asks for `request`.
pub open spec fn ask(stage: StageView, request: BootRequestView) -> (StageView, BootProgressView) {
    (stage, BootProgressView::Ask(request))
}

/// The transition of startup: from the work it waits for and the reply that
/// came, to the work it waits for next and what it wants.
///
/// The steps are taken in this order: environment file, connection,
/// migrations, look for the administrator. If it exists, launch. If not,
/// read the e-mail address, read the password, register the account under
/// the administrator's name, give it the administrator's role, launch. A
/// step that fails aborts startup; only the environment file may be missing.
/// A reply of a kind that does not answer the request aborts it too.
pub open spec fn boot_step(stage: StageView, reply: BootReplyView) -> (StageView, BootProgressView) {
    match stage {
        StageView::LoadingEnvironment => match reply {
            BootReplyView::Done | BootReplyView::Failed => ask(
                StageView::Connecting,
                BootRequestView::Connect,
            ),
            _ => abort(BootFailure::UnexpectedReply),
        },
        StageView::Connecting => match reply {
            BootReplyView::Done => ask(StageView::Migrating, BootRequestView::Migrate),
            BootReplyView::Failed => abort(BootFailure::Connect),
            _ => abort(BootFailure::UnexpectedReply),
        },
        StageView::Migrating => match reply {
            BootReplyView::Done => ask(
                StageView::LookingForAdmin,
                BootRequestView::UsernameExists(ADMIN_USERNAME@),
            ),
            BootReplyView::Failed => abort(BootFailure::Migrate),
            _ => abort(BootFailure::UnexpectedReply),
        },
        StageView::LookingForAdmin => match reply {
            BootReplyView::Exists(true) => launch(),
            BootReplyView::Exists(false) => ask(
                StageView::ReadingEmail,
                BootRequestView::ReadVariable(ADMIN_EMAIL@),
            ),
            BootReplyView::Failed => abort(BootFailure::AdminLookup),
            _ => abort(BootFailure::UnexpectedReply),
        },
        StageView::ReadingEmail => match reply {
            BootReplyView::Value(email) => ask(
                StageView::ReadingPassword { email },
                BootRequestView::ReadVariable(ADMIN_PASSWORD@),
            ),
            BootReplyView::Failed => abort(BootFailure::MissingEmail),
            _ => abort(BootFailure::UnexpectedReply),
        },
        StageView::ReadingPassword { email } => match reply {
            BootReplyView::Value(password) => ask(
                StageView::CreatingAdmin,
                BootRequestView::CreateUser(
                    UserRegisterView { email, password, username: ADMIN_USERNAME@ },
                ),
            ),
            BootReplyView::Failed => abort(BootFailure::MissingPassword),
            _ => abort(BootFailure::UnexpectedReply),
        },
        StageView::CreatingAdmin => match reply {
            BootReplyView::Created(user_id) => ask(
                StageView::AssigningRole,
                BootRequestView::UpdateRole { user_id, role: Role::Admin },
            ),
            BootReplyView::Failed => abort(BootFailure::CreateAdmin),
            _ => abort(BootFailure::UnexpectedReply),
        },
        StageView::AssigningRole => match reply {
            BootReplyView::Done => launch(),
            BootReplyView::Failed => abort(BootFailure::AssignRole),
            _ => abort(BootFailure::UnexpectedReply),
        },
        StageView::Over => abort(BootFailure::UnexpectedReply),
    }
}

fn give_up(failure: BootFailure) -> (moved: (Stage, BootProgress))
    ensures
        (moved.0@, moved.1@) == abort(failure),
{
    (Stage::Over, BootProgress::Abort(failure))
}

/// Makes one transition of startup: see [`boot_step`].
pub fn boot_advance(stage: Stage, reply: BootReply) -> (moved: (Stage, BootProgress))
    ensures
        (moved.0@, moved.1@) == boot_step(stage@, reply@),
{
    match stage {
        Stage::LoadingEnvironment => match reply {
            BootReply::Done | BootReply::Failed => (
                Stage::Connecting,
                BootProgress::Ask(BootRequest::Connect),
            ),
            _ => give_up(BootFailure::UnexpectedReply),
        },
        Stage::Connecting => match reply {
            BootReply::Done => (Stage::Migrating, BootProgress::Ask(BootRequest::Migrate)),
            BootReply::Failed => give_up(BootFailure::Connect),
            _ => give_up(BootFailure::UnexpectedReply),
        },
        Stage::Migrating => match reply {
            BootReply::Done => (
                Stage::LookingForAdmin,
                BootProgress::Ask(BootRequest::UsernameExists(ADMIN_USERNAME.to_string())),
            ),
            BootReply::Failed => give_up(BootFailure::Migrate),
            _ => give_up(BootFailure::UnexpectedReply),
        },
        Stage::LookingForAdmin => match reply {
            BootReply::Exists(true) => (Stage::Over, BootProgress::Launch),
            BootReply::Exists(false) => (
                Stage::ReadingEmail,
                BootProgress::Ask(BootRequest::ReadVariable(ADMIN_EMAIL.to_string())),
            ),
            BootReply::Failed => give_up(BootFailure::AdminLookup),
            _ => give_up(BootFailure::UnexpectedReply),
        },
        Stage::ReadingEmail => match reply {
            BootReply::Value(email) => (
                Stage::ReadingPassword { email },
                BootProgress::Ask(BootRequest::ReadVariable(ADMIN_PASSWORD.to_string())),
            ),
            BootReply::Failed => give_up(BootFailure::MissingEmail),
            _ => give_up(BootFailure::UnexpectedReply),
        },
        Stage::ReadingPassword { email } => match reply {
            BootReply::Value(password) => (
                Stage::CreatingAdmin,
                BootProgress::Ask(
                    BootRequest::CreateUser(
                        UserRegister { email, password, username: ADMIN_USERNAME.to_string() },
                    ),
                ),
            ),
            BootReply::Failed => give_up(BootFailure::MissingPassword),
            _ => give_up(BootFailure::UnexpectedReply),
        },
        Stage::CreatingAdmin => match reply {
            BootReply::Created(user_id) => (
                Stage::AssigningRole,
                BootProgress::Ask(BootRequest::UpdateRole { user_id, role: Role::Admin }),
            ),
            BootReply::Failed => give_up(BootFailure::CreateAdmin),
            _ => give_up(BootFailure::UnexpectedReply),
        },
        Stage::AssigningRole => match reply {
            BootReply::Done => (Stage::Over, BootProgress::Launch),
            BootReply::Failed => give_up(BootFailure::AssignRole),
            _ => give_up(BootFailure::UnexpectedReply),
        },
        Stage::Over => give_up(BootFailure::UnexpectedReply),
    }
}

/// The startup routine of one run of the program.
#[derive(Debug, PartialEq)]
pub struct Startup {
    pub stage: Stage,
}

/// Begins startup: hands out the routine and the first piece of work.
pub fn rocket() -> (begun: (Startup, BootRequest))
    ensures
        begun.0.stage@ == StageView::LoadingEnvironment,
        begun.1@ == BootRequestView::LoadEnvironmentFile,
{
    (Startup { stage: Stage::LoadingEnvironment }, BootRequest::LoadEnvironmentFile)
}

impl Startup {
    /// Takes the reply to the work that was handed out last and says how
    /// startup goes on: see [`boot_step`].
    pub fn resume(&mut self, reply: BootReply) -> (progress: BootProgress)
        ensures
            (final(self).stage@, progress@) == boot_step(old(self).stage@, reply@),
    {
        let mut stage = Stage::Over;
        core::mem::swap(&mut self.stage, &mut stage);
        let (next, progress) = boot_advance(stage, reply);
        self.stage = next;
        progress
    }
}

} // verus!
