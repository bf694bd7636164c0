//! A backup run: open the store, read the remote store's configuration, read
//! the three tables, write the snapshot, and put it on the remote store.
//!
//! Store, configuration and network are the caller's. The run says what to do
//! next ([`BackupAction`]); the caller does it and reports what happened
//! ([`BackupEvent`]). [`backup_outcome`] states where a whole run ends.

use crate::clock::{Moment, MomentView};
use crate::error::{
    backup_message, BackupError, BackupErrorView, ExportError, UploadError, UploadErrorView,
};
use crate::export::{exported, snapshot_document, snapshot_of, BackupSnapshot, Table};
use crate::json::{error_text, json_error_text, json_pretty, rows_view, Json};
use crate::text::{join2, optional_text};
use crate::upload::{
    authorizable, authorization_for, backup_filename, basic_authorization, configuration,
    filename_for, interpret_status, pass_secret, path_variable, request_for, status_outcome,
    success_message, upload_request, user_secret, RemoteCredential, RemoteCredentialView,
    UploadReceipt, UploadReceiptView, UploadRequest, UploadRequestView,
};
use vstd::prelude::*;

verus! {

/// What the caller has to do next.
#[derive(Debug, PartialEq, Eq)]
pub enum BackupAction {
    /// Open the vault's store, bound under this name.
    OpenStore { binding: String },
    /// Read the remote store's configuration: the two secrets, and the
    /// variable that may hold the directory.
    ReadConfiguration { user_secret: String, pass_secret: String, path_variable: String },
    /// Read all rows of a table.
    Query(Table),
    /// Send this request to the remote store.
    Put(UploadRequest),
    /// The run is over, with this outcome.
    Finish(Result<UploadReceipt, BackupError>),
}

/// Mathematical value of a [`BackupAction`].
pub enum BackupActionView {
    OpenStore { binding: Seq<char> },
    ReadConfiguration { user_secret: Seq<char>, pass_secret: Seq<char>, path_variable: Seq<char> },
    Query(Table),
    Put(UploadRequestView),
    Finish(Result<UploadReceiptView, BackupErrorView>),
}

/// Mathematical value of a run's outcome.
pub open spec fn outcome_view(outcome: Result<UploadReceipt, BackupError>) -> Result<
    UploadReceiptView,
    BackupErrorView,
> {
    match outcome {
        Ok(receipt) => Ok(receipt@),
        Err(e) => Err(e@),
    }
}

impl View for BackupAction {
    type V = BackupActionView;

    open spec fn view(&self) -> BackupActionView {
        match self {
            BackupAction::OpenStore { binding } => BackupActionView::OpenStore {
                binding: binding@,
            },
            BackupAction::ReadConfiguration { user_secret, pass_secret, path_variable } => {
                BackupActionView::ReadConfiguration {
                    user_secret: user_secret@,
                    pass_secret: pass_secret@,
                    path_variable: path_variable@,
                }
            },
            BackupAction::Query(table) => BackupActionView::Query(*table),
            BackupAction::Put(request) => BackupActionView::Put(request@),
            BackupAction::Finish(outcome) => BackupActionView::Finish(outcome_view(*outcome)),
        }
    }
}

/// What became of the last request.
#[derive(Debug, PartialEq, Eq)]
pub enum BackupEvent {
    /// The store is open.
    StoreOpened,
    /// The store could not be opened.
    StoreUnavailable,
    /// What is configured for the remote store; `None` for what is not set.
    Configured { user: Option<String>, pass: Option<String>, path: Option<String> },
    /// The table's rows, in the store's order.
    Rows(Vec<serde_json::Value>),
    /// The table could not be read.
    QueryFailed,
    /// The remote store answered with this status.
    Responded(u16),
    /// The request got no answer; the text says why.
    TransportFailed(String),
}

/// Mathematical value of a [`BackupEvent`].
pub enum BackupEventView {
    StoreOpened,
    StoreUnavailable,
    Configured { user: Option<Seq<char>>, pass: Option<Seq<char>>, path: Option<Seq<char>> },
    Rows(Seq<Json>),
    QueryFailed,
    Responded(u16),
    TransportFailed(Seq<char>),
}

impl View for BackupEvent {
    type V = BackupEventView;

    open spec fn view(&self) -> BackupEventView {
        match self {
            BackupEvent::StoreOpened => BackupEventView::StoreOpened,
            BackupEvent::StoreUnavailable => BackupEventView::StoreUnavailable,
            BackupEvent::Configured { user, pass, path } => BackupEventView::Configured {
                user: optional_text(*user),
                pass: optional_text(*pass),
                path: optional_text(*path),
            },
            BackupEvent::Rows(rows) => BackupEventView::Rows(rows_view(rows@)),
            BackupEvent::QueryFailed => BackupEventView::QueryFailed,
            BackupEvent::Responded(status) => BackupEventView::Responded(*status),
            BackupEvent::TransportFailed(reason) => BackupEventView::TransportFailed(reason@),
        }
    }
}

/// A backup run in progress. Once the configuration is read the run keeps
/// the `Authorization` header in place of user and password; the rows read
/// so far travel with it until the snapshot is written.
#[derive(Debug, PartialEq, Eq)]
pub enum BackupRun {
    OpeningStore,
    Configuring,
    ReadingUsers { authorization: String, base_path: String },
    ReadingCiphers { authorization: String, base_path: String, users: Vec<serde_json::Value> },
    ReadingFolders {
        authorization: String,
        base_path: String,
        users: Vec<serde_json::Value>,
        ciphers: Vec<serde_json::Value>,
    },
    Uploading { filename: String },
    Finished,
}

/// Mathematical value of a [`BackupRun`].
pub enum BackupRunView {
    OpeningStore,
    Configuring,
    ReadingUsers { authorization: Seq<char>, base_path: Seq<char> },
    ReadingCiphers { authorization: Seq<char>, base_path: Seq<char>, users: Seq<Json> },
    ReadingFolders {
        authorization: Seq<char>,
        base_path: Seq<char>,
        users: Seq<Json>,
        ciphers: Seq<Json>,
    },
    Uploading { filename: Seq<char> },
    Finished,
}

impl View for BackupRun {
    type V = BackupRunView;

    open spec fn view(&self) -> BackupRunView {
        match self {
            BackupRun::OpeningStore => BackupRunView::OpeningStore,
            BackupRun::Configuring => BackupRunView::Configuring,
            BackupRun::ReadingUsers { authorization, base_path } => BackupRunView::ReadingUsers {
                authorization: authorization@,
                base_path: base_path@,
            },
            BackupRun::ReadingCiphers { authorization, base_path, users } => {
                BackupRunView::ReadingCiphers {
                    authorization: authorization@,
                    base_path: base_path@,
                    users: rows_view(users@),
                }
            },
            BackupRun::ReadingFolders { authorization, base_path, users, ciphers } => {
                BackupRunView::ReadingFolders {
                    authorization: authorization@,
                    base_path: base_path@,
                    users: rows_view(users@),
                    ciphers: rows_view(ciphers@),
                }
            },
            BackupRun::Uploading { filename } => BackupRunView::Uploading { filename: filename@ },
            BackupRun::Finished => BackupRunView::Finished,
        }
    }
}

/// A finished run with a failure.
pub open spec fn failed(e: BackupErrorView) -> (BackupRunView, BackupActionView) {
    (BackupRunView::Finished, BackupActionView::Finish(Err(e)))
}

/// Error text for a credential that cannot be encoded.
pub open spec fn oversized_credential() -> Seq<char> {
    "user and password are too long"@
}

/// Error text for a secret that is not set.
pub open spec fn missing_secret(name: Seq<char>) -> Seq<char> {
    "missing secret "@ + name
}

/// The name under which the vault's store is bound.
pub open spec fn store_binding() -> Seq<char> {
    "vault1"@
}

/// The request to read the remote store's configuration.
pub open spec fn configuration_request() -> BackupActionView {
    BackupActionView::ReadConfiguration {
        user_secret: user_secret(),
        pass_secret: pass_secret(),
        path_variable: path_variable(),
    }
}

/// How a run goes on once the configuration is read: with the first table,
/// unless a secret is wanting or user and password are too long to be
/// encoded.
pub open spec fn after_configuration(
    user: Option<Seq<char>>,
    pass: Option<Seq<char>>,
    path: Option<Seq<char>>,
) -> (BackupRunView, BackupActionView) {
    match configuration(user, pass, path) {
        Err(name) => failed(BackupErrorView::Config(missing_secret(name))),
        Ok(credential) => if authorizable(credential.user, credential.pass) {
            (
                BackupRunView::ReadingUsers {
                    authorization: basic_authorization(credential.user, credential.pass),
                    base_path: credential.base_path,
                },
                BackupActionView::Query(Table::Users),
            )
        } else {
            failed(BackupErrorView::Config(oversized_credential()))
        },
    }
}

/// A snapshot writer's result with the error as its text.
pub open spec fn rendered_text(rendered: Result<Seq<char>, serde_json::Error>) -> Result<
    Seq<char>,
    Seq<char>,
> {
    match rendered {
        Ok(body) => Ok(body),
        Err(e) => Err(json_error_text(e)),
    }
}

/// How a run goes on once the snapshot is written: the text is put under the
/// moment's file name; a writer's error ends the run.
pub open spec fn after_rendering(
    rendered: Result<Seq<char>, Seq<char>>,
    authorization: Seq<char>,
    base_path: Seq<char>,
    now: MomentView,
) -> (BackupRunView, BackupActionView) {
    match rendered {
        Ok(body) => (
            BackupRunView::Uploading { filename: filename_for(now.compact) },
            BackupActionView::Put(
                request_for(authorization, base_path, filename_for(now.compact), body),
            ),
        ),
        Err(reason) => failed(BackupErrorView::Serialization(reason)),
    }
}

/// How a run goes on once the last table is read: the snapshot of the three
/// tables, taken now, is written and put on the remote store.
pub open spec fn after_reading(
    authorization: Seq<char>,
    base_path: Seq<char>,
    users: Seq<Json>,
    ciphers: Seq<Json>,
    folders: Seq<Json>,
    now: MomentView,
) -> (BackupRunView, BackupActionView) {
    after_rendering(
        rendered_text(
            json_pretty(snapshot_document(snapshot_of(now.rfc3339, users, ciphers, folders))),
        ),
        authorization,
        base_path,
        now,
    )
}

/// How a run ends once the remote store has answered.
pub open spec fn after_response(status: u16, filename: Seq<char>) -> (
    BackupRunView,
    BackupActionView,
) {
    (
        BackupRunView::Finished,
        BackupActionView::Finish(
            match status_outcome(status, filename) {
                Ok(receipt) => Ok(receipt),
                Err(e) => Err(BackupErrorView::Upload(e)),
            },
        ),
    )
}

/// How a run starts: with opening the store.
pub open spec fn begin() -> (BackupRunView, BackupActionView) {
    (BackupRunView::OpeningStore, BackupActionView::OpenStore { binding: store_binding() })
}

/// How a run goes on after an event that is reported at the moment `now`.
/// A failure of any step ends the run; nothing is put on the remote store
/// unless all three tables were read.
pub open spec fn next(state: BackupRunView, event: BackupEventView, now: MomentView) -> (
    BackupRunView,
    BackupActionView,
) {
    match (state, event) {
        (BackupRunView::OpeningStore, BackupEventView::StoreOpened) => (
            BackupRunView::Configuring,
            configuration_request(),
        ),
        (BackupRunView::OpeningStore, BackupEventView::StoreUnavailable) => failed(
            BackupErrorView::Export(ExportError::StoreUnavailable),
        ),
        (BackupRunView::Configuring, BackupEventView::Configured { user, pass, path }) => {
            after_configuration(user, pass, path)
        },
        (BackupRunView::ReadingUsers { authorization, base_path }, BackupEventView::Rows(rows)) => (
            BackupRunView::ReadingCiphers { authorization, base_path, users: rows },
            BackupActionView::Query(Table::Ciphers),
        ),
        (BackupRunView::ReadingUsers { .. }, BackupEventView::QueryFailed) => failed(
            BackupErrorView::Export(ExportError::QueryFailed(Table::Users)),
        ),
        (
            BackupRunView::ReadingCiphers { authorization, base_path, users },
            BackupEventView::Rows(rows),
        ) => (
            BackupRunView::ReadingFolders { authorization, base_path, users, ciphers: rows },
            BackupActionView::Query(Table::Folders),
        ),
        (BackupRunView::ReadingCiphers { .. }, BackupEventView::QueryFailed) => failed(
            BackupErrorView::Export(ExportError::QueryFailed(Table::Ciphers)),
        ),
        (
            BackupRunView::ReadingFolders { authorization, base_path, users, ciphers },
            BackupEventView::Rows(rows),
        ) => after_reading(authorization, base_path, users, ciphers, rows, now),
        (BackupRunView::ReadingFolders { .. }, BackupEventView::QueryFailed) => failed(
            BackupErrorView::Export(ExportError::QueryFailed(Table::Folders)),
        ),
        (BackupRunView::Uploading { filename }, BackupEventView::Responded(status)) => {
            after_response(status, filename)
        },
        (BackupRunView::Uploading { .. }, BackupEventView::TransportFailed(reason)) => failed(
            BackupErrorView::Upload(UploadErrorView::Network(reason)),
        ),
        _ => failed(BackupErrorView::UnexpectedEvent),
    }
}

/// Ends a run with a failure.
fn fail(e: BackupError) -> (r: (BackupRun, BackupAction))
    ensures
        (r.0@, r.1@) == failed(e@),
{
    (BackupRun::Finished, BackupAction::Finish(Err(e)))
}

/// Starts a backup of the vault to the remote WebDAV store. The run goes on
/// with [`BackupRun::step`].
pub fn backup_to_jianguoyun() -> (r: (BackupRun, BackupAction))
    ensures
        (r.0@, r.1@) == begin(),
{
    (BackupRun::OpeningStore, BackupAction::OpenStore { binding: String::from_str("vault1") })
}

/// Goes on once the configuration is read; `None` stands for what is not
/// set.
pub fn on_configured(user: Option<String>, pass: Option<String>, path: Option<String>) -> (r: (
    BackupRun,
    BackupAction,
))
    ensures
        (r.0@, r.1@) == after_configuration(
            optional_text(user),
            optional_text(pass),
            optional_text(path),
        ),
{
    match RemoteCredential::from_configuration(user, pass, path) {
        Err(name) => fail(BackupError::Config(join2("missing secret ", name.as_str()))),
        Ok(credential) => match authorization_for(&credential) {
            Some(authorization) => (
                BackupRun::ReadingUsers { authorization, base_path: credential.base_path },
                BackupAction::Query(Table::Users),
            ),
            None => fail(BackupError::Config(String::from_str("user and password are too long"))),
        },
    }
}

/// Goes on once the snapshot is written, or could not be: `text` is the
/// snapshot's text, or the writer's error as text.
pub fn on_rendered(
    text: Result<String, String>,
    authorization: String,
    base_path: String,
    now: &Moment,
) -> (r: (BackupRun, BackupAction))
    ensures
        (r.0@, r.1@) == after_rendering(
            match text {
                Ok(body) => Ok(body@),
                Err(reason) => Err(reason@),
            },
            authorization@,
            base_path@,
            now@,
        ),
{
    match text {
        Ok(body) => {
            let filename: String = backup_filename(now.compact());
            let request: UploadRequest = upload_request(
                authorization,
                base_path.as_str(),
                filename.as_str(),
                body,
            );
            (BackupRun::Uploading { filename }, BackupAction::Put(request))
        },
        Err(reason) => fail(BackupError::Serialization(reason)),
    }
}

/// Goes on once the remote store has answered the upload of a file.
pub fn on_response(status: u16, filename: String) -> (r: (BackupRun, BackupAction))
    ensures
        (r.0@, r.1@) == after_response(status, filename@),
{
    let outcome: Result<UploadReceipt, BackupError> = match interpret_status(status, filename) {
        Ok(receipt) => Ok(receipt),
        Err(e) => Err(BackupError::Upload(e)),
    };
    (BackupRun::Finished, BackupAction::Finish(outcome))
}

impl BackupRun {
    /// Takes what became of the last request, reported at the moment `now`,
    /// and says what to do next.
    pub fn step(self, event: BackupEvent, now: &Moment) -> (r: (BackupRun, BackupAction))
        ensures
            (r.0@, r.1@) == next(self@, event@, now@),
    {
        match (self, event) {
            (BackupRun::OpeningStore, BackupEvent::StoreOpened) => (
                BackupRun::Configuring,
                BackupAction::ReadConfiguration {
                    user_secret: String::from_str("JIANGUOYUN_USER"),
                    pass_secret: String::from_str("JIANGUOYUN_PASS"),
                    path_variable: String::from_str("JIANGUOYUN_PATH"),
                },
            ),
            (BackupRun::OpeningStore, BackupEvent::StoreUnavailable) => fail(
                BackupError::Export(ExportError::StoreUnavailable),
            ),
            (BackupRun::Configuring, BackupEvent::Configured { user, pass, path }) => {
                on_configured(user, pass, path)
            },
            (BackupRun::ReadingUsers { authorization, base_path }, BackupEvent::Rows(rows)) => (
                BackupRun::ReadingCiphers { authorization, base_path, users: rows },
                BackupAction::Query(Table::Ciphers),
            ),
            (BackupRun::ReadingUsers { .. }, BackupEvent::QueryFailed) => fail(
                BackupError::Export(ExportError::QueryFailed(Table::Users)),
            ),
            (
                BackupRun::ReadingCiphers { authorization, base_path, users },
                BackupEvent::Rows(rows),
            ) => (
                BackupRun::ReadingFolders { authorization, base_path, users, ciphers: rows },
                BackupAction::Query(Table::Folders),
            ),
            (BackupRun::ReadingCiphers { .. }, BackupEvent::QueryFailed) => fail(
                BackupError::Export(ExportError::QueryFailed(Table::Ciphers)),
            ),
            (
                BackupRun::ReadingFolders { authorization, base_path, users, ciphers },
                BackupEvent::Rows(rows),
            ) => {
                let snapshot: BackupSnapshot = BackupSnapshot::new(now, users, ciphers, rows);
                let text: Result<String, String> = match snapshot.render() {
                    Ok(body) => Ok(body),
                    Err(e) => Err(error_text(&e)),
                };
                on_rendered(text, authorization, base_path, now)
            },
            (BackupRun::ReadingFolders { .. }, BackupEvent::QueryFailed) => fail(
                BackupError::Export(ExportError::QueryFailed(Table::Folders)),
            ),
            (BackupRun::Uploading { filename }, BackupEvent::Responded(status)) => on_response(
                status,
                filename,
            ),
            (BackupRun::Uploading { .. }, BackupEvent::TransportFailed(reason)) => fail(
                BackupError::Upload(UploadError::Network(reason)),
            ),
            _ => fail(BackupError::UnexpectedEvent),
        }
    }
}

/// What a run meets outside the library: whether the store opens, what is
/// configured (`None` for what is not set), the rows of each table (`None`
/// where it cannot be read), what the remote store does with a request, and
/// the moment at which the last table arrives.
pub struct Surroundings {
    pub store_opens: bool,
    pub user: Option<Seq<char>>,
    pub pass: Option<Seq<char>>,
    pub path: Option<Seq<char>>,
    pub users: Option<Seq<Json>>,
    pub ciphers: Option<Seq<Json>>,
    pub folders: Option<Seq<Json>>,
    pub remote: spec_fn(UploadRequestView) -> Result<u16, Seq<char>>,
    pub now: MomentView,
}

impl Surroundings {
    /// The credential that is configured, or the name of the secret that
    /// is wanting.
    pub open spec fn configuration(self) -> Result<RemoteCredentialView, Seq<char>> {
        configuration(self.user, self.pass, self.path)
    }

    /// The rows of a table, if it can be read.
    pub open spec fn rows(self, table: Table) -> Option<Seq<Json>> {
        match table {
            Table::Users => self.users,
            Table::Ciphers => self.ciphers,
            Table::Folders => self.folders,
        }
    }
}

/// Why a run ends before it sends a request; `None` where it sends one.
/// The first step that fails decides: the store, then the configuration,
/// then the tables in the order users, ciphers, folders, then the writer.
pub open spec fn export_failure(world: Surroundings) -> Option<BackupErrorView> {
    if !world.store_opens {
        Some(BackupErrorView::Export(ExportError::StoreUnavailable))
    } else {
        match world.configuration() {
            Err(name) => Some(BackupErrorView::Config(missing_secret(name))),
            Ok(credential) => if !authorizable(credential.user, credential.pass) {
                Some(BackupErrorView::Config(oversized_credential()))
            } else {
                match exported(true, world.users, world.ciphers, world.folders, world.now.rfc3339) {
                    Err(e) => Some(BackupErrorView::Export(e)),
                    Ok(snapshot) => match json_pretty(snapshot_document(snapshot)) {
                        Err(e) => Some(BackupErrorView::Serialization(json_error_text(e))),
                        Ok(_) => None,
                    },
                }
            },
        }
    }
}

/// The request that a run sends to the remote store; `None` where it ends
/// before. Its body is the text of the snapshot that the export yields.
pub open spec fn uploaded(world: Surroundings) -> Option<UploadRequestView> {
    if export_failure(world) is Some {
        None
    } else {
        Some(
            request_for(
                basic_authorization(
                    world.configuration()->Ok_0.user,
                    world.configuration()->Ok_0.pass,
                ),
                world.configuration()->Ok_0.base_path,
                filename_for(world.now.compact),
                json_pretty(
                    snapshot_document(
                        exported(
                            true,
                            world.users,
                            world.ciphers,
                            world.folders,
                            world.now.rfc3339,
                        )->Ok_0,
                    ),
                )->Ok_0,
            ),
        )
    }
}

/// Where a whole run ends in given surroundings: with the failure that kept
/// it from sending, or with what the remote store made of the request.
pub open spec fn backup_outcome(world: Surroundings) -> Result<UploadReceiptView, BackupErrorView> {
    match export_failure(world) {
        Some(e) => Err(e),
        None => match (world.remote)(uploaded(world)->Some_0) {
            Err(reason) => Err(BackupErrorView::Upload(UploadErrorView::Network(reason))),
            Ok(status) => match status_outcome(status, filename_for(world.now.compact)) {
                Ok(receipt) => Ok(receipt),
                Err(e) => Err(BackupErrorView::Upload(e)),
            },
        },
    }
}

/// The event with which the surroundings answer a request.
pub open spec fn answer(action: BackupActionView, world: Surroundings) -> BackupEventView {
    match action {
        BackupActionView::ReadConfiguration { .. } => BackupEventView::Configured {
            user: world.user,
            pass: world.pass,
            path: world.path,
        },
        BackupActionView::Query(table) => match world.rows(table) {
            Some(rows) => BackupEventView::Rows(rows),
            None => BackupEventView::QueryFailed,
        },
        BackupActionView::Put(request) => match (world.remote)(request) {
            Ok(status) => BackupEventView::Responded(status),
            Err(reason) => BackupEventView::TransportFailed(reason),
        },
        _ => if world.store_opens {
            BackupEventView::StoreOpened
        } else {
            BackupEventView::StoreUnavailable
        },
    }
}

/// The outcome of carrying a run on in given surroundings for at most
/// `rounds` requests; `None` if it is not over by then.
pub open spec fn run(
    state: BackupRunView,
    action: BackupActionView,
    world: Surroundings,
    rounds: nat,
) -> Option<Result<UploadReceiptView, BackupErrorView>>
    decreases rounds,
{
    match action {
        BackupActionView::Finish(outcome) => Some(outcome),
        _ => if rounds == 0 {
            None
        } else {
            let following = next(state, answer(action, world), world.now);
            run(following.0, following.1, world, (rounds - 1) as nat)
        },
    }
}

/// The requests that a run makes of its surroundings within `rounds`
/// requests, in order.
pub open spec fn requests(
    state: BackupRunView,
    action: BackupActionView,
    world: Surroundings,
    rounds: nat,
) -> Seq<BackupActionView>
    decreases rounds,
{
    match action {
        BackupActionView::Finish(_) => Seq::empty(),
        _ => if rounds == 0 {
            Seq::empty()
        } else {
            let following = next(state, answer(action, world), world.now);
            seq![action] + requests(following.0, following.1, world, (rounds - 1) as nat)
        },
    }
}

/// A run ends within six requests, and where [`backup_outcome`] states.
pub proof fn lemma_run_yields_backup_outcome(world: Surroundings)
    ensures
        run(begin().0, begin().1, world, 6) == Some(backup_outcome(world)),
{
    reveal_with_fuel(run, 7);
}

/// A run puts at most one request on the remote store, as its sixth and
/// last request, and only the one that [`uploaded`] states: after a failure
/// of the store, of the configuration, of any table or of the writer
/// nothing is sent.
pub proof fn lemma_upload_follows_complete_export(world: Surroundings, i: int)
    requires
        0 <= i < requests(begin().0, begin().1, world, 6).len(),
    ensures
        requests(begin().0, begin().1, world, 6)[i] is Put ==> uploaded(world) == Some(
            requests(begin().0, begin().1, world, 6)[i]->Put_0,
        ) && i == 5,
        export_failure(world) is Some ==> !(requests(begin().0, begin().1, world, 6)[i] is Put),
{
    reveal_with_fuel(requests, 7);
}

/// What a backup run reports: whether it succeeded, and a text for people.
#[derive(Debug, PartialEq, Eq)]
pub struct PipelineResult {
    pub success: bool,
    pub message: String,
}

/// Mathematical value of a [`PipelineResult`].
pub struct PipelineResultView {
    pub success: bool,
    pub message: Seq<char>,
}

impl View for PipelineResult {
    type V = PipelineResultView;

    open spec fn view(&self) -> PipelineResultView {
        PipelineResultView { success: self.success, message: self.message@ }
    }
}

/// The report of a run's outcome: success with the name of the file that was
/// put, or failure with the error's text.
pub open spec fn result_of(outcome: Result<UploadReceiptView, BackupErrorView>)
    -> PipelineResultView {
    match outcome {
        Ok(receipt) => PipelineResultView { success: true, message: success_message(receipt) },
        Err(e) => PipelineResultView { success: false, message: backup_message(e) },
    }
}

impl PipelineResult {
    /// Reports a run's outcome. Failures are reported, never passed on as
    /// faults.
    pub fn from_outcome(outcome: &Result<UploadReceipt, BackupError>) -> (result: PipelineResult)
        ensures
            result@ == result_of(outcome_view(*outcome)),
    {
        match outcome {
            Ok(receipt) => PipelineResult { success: true, message: receipt.message() },
            Err(e) => PipelineResult { success: false, message: e.message() },
        }
    }
}

} // verus!
