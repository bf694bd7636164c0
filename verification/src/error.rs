//! Error kinds of the vault's derivation and backup components.

use crate::export::Table;
use crate::json::{json_view, object1, object_of1, string_value, Json};
use crate::text::{decimal, decimal_text, join2};
use vstd::prelude::*;

verus! {

/// Why a key derivation did not produce a key.
#[derive(Debug, PartialEq, Eq)]
pub enum CryptoError {
    /// The iteration count or the requested key length is not acceptable.
    InvalidParameters,
    /// The host offers no cryptographic provider.
    ProviderUnavailable,
    /// The provider rejected the key import or the derivation; the text says why.
    OperationFailed(String),
}

/// Mathematical value of a [`CryptoError`].
pub enum CryptoErrorView {
    InvalidParameters,
    ProviderUnavailable,
    OperationFailed(Seq<char>),
}

impl View for CryptoError {
    type V = CryptoErrorView;

    open spec fn view(&self) -> CryptoErrorView {
        match self {
            CryptoError::InvalidParameters => CryptoErrorView::InvalidParameters,
            CryptoError::ProviderUnavailable => CryptoErrorView::ProviderUnavailable,
            CryptoError::OperationFailed(reason) => CryptoErrorView::OperationFailed(reason@),
        }
    }
}

/// The text that reports a [`CryptoError`].
pub open spec fn crypto_message(e: CryptoErrorView) -> Seq<char> {
    match e {
        CryptoErrorView::InvalidParameters => "Invalid key derivation parameters"@,
        CryptoErrorView::ProviderUnavailable => "No cryptographic provider available"@,
        CryptoErrorView::OperationFailed(reason) => reason,
    }
}

impl CryptoError {
    /// The text that reports the error.
    pub fn message(&self) -> (text: String)
        ensures
            text@ == crypto_message(self@),
    {
        match self {
            CryptoError::InvalidParameters => String::from_str("Invalid key derivation parameters"),
            CryptoError::ProviderUnavailable => String::from_str(
                "No cryptographic provider available",
            ),
            CryptoError::OperationFailed(reason) => String::from_str(reason.as_str()),
        }
    }
}

/// Why an export produced no snapshot.
#[derive(Debug, Clone, Copy, PartialEq, Eq, Structural)]
pub enum ExportError {
    /// The store could not be opened.
    StoreUnavailable,
    /// Reading this table failed.
    QueryFailed(Table),
}

/// The text that reports an [`ExportError`].
pub open spec fn export_message(e: ExportError) -> Seq<char> {
    match e {
        ExportError::StoreUnavailable => "Backup store is unavailable"@,
        ExportError::QueryFailed(table) => "Query failed on table "@ + table.name_text(),
    }
}

impl ExportError {
    /// The text that reports the error.
    pub fn message(&self) -> (text: String)
        ensures
            text@ == export_message(*self),
    {
        match self {
            ExportError::StoreUnavailable => String::from_str("Backup store is unavailable"),
            ExportError::QueryFailed(table) => join2("Query failed on table ", table.name()),
        }
    }
}

/// Why an upload was not accepted.
#[derive(Debug, PartialEq, Eq)]
pub enum UploadError {
    /// The remote store answered with a status outside 200 to 299.
    Http(u16),
    /// No answer was received: the request could not be sent or the
    /// connection failed.
    Network(String),
}

/// Mathematical value of an [`UploadError`].
pub enum UploadErrorView {
    Http(u16),
    Network(Seq<char>),
}

impl View for UploadError {
    type V = UploadErrorView;

    open spec fn view(&self) -> UploadErrorView {
        match self {
            UploadError::Http(status) => UploadErrorView::Http(*status),
            UploadError::Network(reason) => UploadErrorView::Network(reason@),
        }
    }
}

/// The text that reports an [`UploadError`].
pub open spec fn upload_message(e: UploadErrorView) -> Seq<char> {
    match e {
        UploadErrorView::Http(status) => "Backup failed with status: "@ + decimal(status as nat),
        UploadErrorView::Network(reason) => "Backup upload failed: "@ + reason,
    }
}

impl UploadError {
    /// The text that reports the error.
    pub fn message(&self) -> (text: String)
        ensures
            text@ == upload_message(self@),
    {
        match self {
            UploadError::Http(status) => {
                let number: String = decimal_text(*status as u64);
                join2("Backup failed with status: ", number.as_str())
            },
            UploadError::Network(reason) => join2("Backup upload failed: ", reason.as_str()),
        }
    }
}

/// Why a backup run did not end with an accepted upload.
#[derive(Debug, PartialEq, Eq)]
pub enum BackupError {
    /// The remote store's configuration is missing or cannot be used.
    Config(String),
    /// The snapshot could not be taken.
    Export(ExportError),
    /// The snapshot could not be written as JSON; the text is the writer's.
    Serialization(String),
    /// The upload was not accepted.
    Upload(UploadError),
    /// The caller reported an event that does not answer the last request.
    UnexpectedEvent,
}

/// Mathematical value of a [`BackupError`].
pub enum BackupErrorView {
    Config(Seq<char>),
    Export(ExportError),
    Serialization(Seq<char>),
    Upload(UploadErrorView),
    UnexpectedEvent,
}

impl View for BackupError {
    type V = BackupErrorView;

    open spec fn view(&self) -> BackupErrorView {
        match self {
            BackupError::Config(reason) => BackupErrorView::Config(reason@),
            BackupError::Export(e) => BackupErrorView::Export(*e),
            BackupError::Serialization(reason) => BackupErrorView::Serialization(reason@),
            BackupError::Upload(e) => BackupErrorView::Upload(e@),
            BackupError::UnexpectedEvent => BackupErrorView::UnexpectedEvent,
        }
    }
}

/// The text that reports a [`BackupError`].
pub open spec fn backup_message(e: BackupErrorView) -> Seq<char> {
    match e {
        BackupErrorView::Config(reason) => "Backup configuration error: "@ + reason,
        BackupErrorView::Export(e) => export_message(e),
        BackupErrorView::Serialization(reason) => "JSON serialization error: "@ + reason,
        BackupErrorView::Upload(e) => upload_message(e),
        BackupErrorView::UnexpectedEvent => "Backup received an unexpected event"@,
    }
}

impl BackupError {
    /// The text that reports the error.
    pub fn message(&self) -> (text: String)
        ensures
            text@ == backup_message(self@),
    {
        match self {
            BackupError::Config(reason) => join2("Backup configuration error: ", reason.as_str()),
            BackupError::Export(e) => e.message(),
            BackupError::Serialization(reason) => join2(
                "JSON serialization error: ",
                reason.as_str(),
            ),
            BackupError::Upload(e) => e.message(),
            BackupError::UnexpectedEvent => String::from_str("Backup received an unexpected event"),
        }
    }
}

/// What can go wrong while the vault serves a request.
#[derive(Debug, PartialEq, Eq)]
pub enum AppError {
    /// The hosting runtime failed; the text is its error's.
    Worker(String),
    /// A query of the store failed.
    Database,
    /// What was asked for does not exist.
    NotFound(String),
    /// The request is not acceptable.
    BadRequest(String),
    /// The caller is not allowed to do this.
    Unauthorized(String),
    /// A cryptographic operation failed.
    Crypto(String),
    /// The caller's token was refused; the text is the token library's.
    JsonWebToken(String),
    /// Anything else.
    Internal,
}

/// Mathematical value of an [`AppError`].
pub enum AppErrorView {
    Worker(Seq<char>),
    Database,
    NotFound(Seq<char>),
    BadRequest(Seq<char>),
    Unauthorized(Seq<char>),
    Crypto(Seq<char>),
    JsonWebToken(Seq<char>),
    Internal,
}

impl View for AppError {
    type V = AppErrorView;

    open spec fn view(&self) -> AppErrorView {
        match self {
            AppError::Worker(text) => AppErrorView::Worker(text@),
            AppError::Database => AppErrorView::Database,
            AppError::NotFound(text) => AppErrorView::NotFound(text@),
            AppError::BadRequest(text) => AppErrorView::BadRequest(text@),
            AppError::Unauthorized(text) => AppErrorView::Unauthorized(text@),
            AppError::Crypto(text) => AppErrorView::Crypto(text@),
            AppError::JsonWebToken(text) => AppErrorView::JsonWebToken(text@),
            AppError::Internal => AppErrorView::Internal,
        }
    }
}

/// The text that reports an [`AppError`] in logs.
pub open spec fn app_message(e: AppErrorView) -> Seq<char> {
    match e {
        AppErrorView::Worker(text) => "Worker error: "@ + text,
        AppErrorView::Database => "Database query failed"@,
        AppErrorView::NotFound(text) => "Not found: "@ + text,
        AppErrorView::BadRequest(text) => "Invalid request: "@ + text,
        AppErrorView::Unauthorized(text) => "Unauthorized: "@ + text,
        AppErrorView::Crypto(text) => "Cryptography error: "@ + text,
        AppErrorView::JsonWebToken(text) => text,
        AppErrorView::Internal => "Internal server error"@,
    }
}

/// The HTTP status that answers a request that failed with an error.
pub open spec fn response_status(e: AppErrorView) -> u16 {
    match e {
        AppErrorView::NotFound(_) => 404,
        AppErrorView::BadRequest(_) => 400,
        AppErrorView::Unauthorized(_) => 401,
        AppErrorView::JsonWebToken(_) => 401,
        _ => 500,
    }
}

/// The text that the answer to a failed request shows the caller. What a
/// token library says of a refused token is not shown.
pub open spec fn response_text(e: AppErrorView) -> Seq<char> {
    match e {
        AppErrorView::Worker(text) => "Worker error: "@ + text,
        AppErrorView::Database => "Database error"@,
        AppErrorView::NotFound(text) => text,
        AppErrorView::BadRequest(text) => text,
        AppErrorView::Unauthorized(text) => text,
        AppErrorView::Crypto(text) => "Crypto error: "@ + text,
        AppErrorView::JsonWebToken(_) => "Invalid token"@,
        AppErrorView::Internal => "Internal server error"@,
    }
}

/// The body of the answer to a failed request: an object with the text as
/// its member `error`.
pub open spec fn error_body(text: Seq<char>) -> Json {
    object1("error"@, Json::String(text))
}

impl AppError {
    /// The error that stands for a failed key derivation.
    pub fn from_crypto(e: &CryptoError) -> (error: AppError)
        ensures
            error@ == AppErrorView::Crypto(crypto_message(e@)),
    {
        AppError::Crypto(e.message())
    }

    /// The text that reports the error in logs.
    pub fn message(&self) -> (text: String)
        ensures
            text@ == app_message(self@),
    {
        match self {
            AppError::Worker(text) => join2("Worker error: ", text.as_str()),
            AppError::Database => String::from_str("Database query failed"),
            AppError::NotFound(text) => join2("Not found: ", text.as_str()),
            AppError::BadRequest(text) => join2("Invalid request: ", text.as_str()),
            AppError::Unauthorized(text) => join2("Unauthorized: ", text.as_str()),
            AppError::Crypto(text) => join2("Cryptography error: ", text.as_str()),
            AppError::JsonWebToken(text) => String::from_str(text.as_str()),
            AppError::Internal => String::from_str("Internal server error"),
        }
    }

    /// The HTTP status that answers a request that failed with this error.
    pub fn status(&self) -> (status: u16)
        ensures
            status == response_status(self@),
    {
        match self {
            AppError::NotFound(_) => 404,
            AppError::BadRequest(_) => 400,
            AppError::Unauthorized(_) => 401,
            AppError::JsonWebToken(_) => 401,
            _ => 500,
        }
    }

    /// The answer to a request that failed with this error: its status and
    /// its JSON body.
    pub fn into_response(self) -> (response: (u16, serde_json::Value))
        ensures
            response.0 == response_status(self@),
            json_view(response.1) == error_body(response_text(self@)),
    {
        let status: u16 = self.status();
        let text: String = match self {
            AppError::Worker(text) => join2("Worker error: ", text.as_str()),
            AppError::Database => String::from_str("Database error"),
            AppError::NotFound(text) => text,
            AppError::BadRequest(text) => text,
            AppError::Unauthorized(text) => text,
            AppError::Crypto(text) => join2("Crypto error: ", text.as_str()),
            AppError::JsonWebToken(_) => String::from_str("Invalid token"),
            AppError::Internal => String::from_str("Internal server error"),
        };
        (status, object_of1("error", string_value(text.as_str())))
    }
}

} // verus!
