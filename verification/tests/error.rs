use serde_json::Value;
use warden_vault::error::{AppError, BackupError, ExportError, UploadError};
use warden_vault::export::Table;

fn body(text: &str) -> Value {
    Value::from_iter([("error", text)])
}

#[test]
fn app_error_responses() {
    assert_eq!(
        AppError::Worker("boom".to_string()).into_response(),
        (500, body("Worker error: boom"))
    );
    assert_eq!(AppError::Database.into_response(), (500, body("Database error")));
    assert_eq!(AppError::NotFound("no such cipher".to_string()).into_response(), (404, body("no such cipher")));
    assert_eq!(AppError::BadRequest("bad".to_string()).into_response(), (400, body("bad")));
    assert_eq!(AppError::Unauthorized("who?".to_string()).into_response(), (401, body("who?")));
    assert_eq!(
        AppError::Crypto("PBKDF2 derive_bits failed: x".to_string()).into_response(),
        (500, body("Crypto error: PBKDF2 derive_bits failed: x"))
    );
    assert_eq!(
        AppError::JsonWebToken("ExpiredSignature".to_string()).into_response(),
        (401, body("Invalid token"))
    );
    assert_eq!(AppError::Internal.into_response(), (500, body("Internal server error")));
}

#[test]
fn app_error_response_body_is_an_object_with_error() {
    let (status, value) = AppError::NotFound("gone".to_string()).into_response();
    assert_eq!(status, 404);
    assert_eq!(serde_json::to_string(&value).unwrap(), r#"{"error":"gone"}"#);
}

#[test]
fn app_error_statuses() {
    assert_eq!(AppError::Worker(String::new()).status(), 500);
    assert_eq!(AppError::Database.status(), 500);
    assert_eq!(AppError::NotFound(String::new()).status(), 404);
    assert_eq!(AppError::BadRequest(String::new()).status(), 400);
    assert_eq!(AppError::Unauthorized(String::new()).status(), 401);
    assert_eq!(AppError::Crypto(String::new()).status(), 500);
    assert_eq!(AppError::JsonWebToken(String::new()).status(), 401);
    assert_eq!(AppError::Internal.status(), 500);
}

#[test]
fn app_error_messages() {
    assert_eq!(AppError::Worker("boom".to_string()).message(), "Worker error: boom");
    assert_eq!(AppError::Database.message(), "Database query failed");
    assert_eq!(AppError::NotFound("x".to_string()).message(), "Not found: x");
    assert_eq!(AppError::BadRequest("x".to_string()).message(), "Invalid request: x");
    assert_eq!(AppError::Unauthorized("x".to_string()).message(), "Unauthorized: x");
    assert_eq!(AppError::Crypto("x".to_string()).message(), "Cryptography error: x");
    assert_eq!(AppError::JsonWebToken("InvalidToken".to_string()).message(), "InvalidToken");
    assert_eq!(AppError::Internal.message(), "Internal server error");
}

#[test]
fn export_error_messages() {
    assert_eq!(ExportError::StoreUnavailable.message(), "Backup store is unavailable");
    assert_eq!(ExportError::QueryFailed(Table::Users).message(), "Query failed on table users");
    assert_eq!(ExportError::QueryFailed(Table::Ciphers).message(), "Query failed on table ciphers");
    assert_eq!(ExportError::QueryFailed(Table::Folders).message(), "Query failed on table folders");
}

#[test]
fn backup_error_messages() {
    assert_eq!(
        BackupError::Config("missing secret JIANGUOYUN_USER".to_string()).message(),
        "Backup configuration error: missing secret JIANGUOYUN_USER"
    );
    assert_eq!(
        BackupError::Export(ExportError::QueryFailed(Table::Folders)).message(),
        "Query failed on table folders"
    );
    assert_eq!(
        BackupError::Serialization("key must be a string".to_string()).message(),
        "JSON serialization error: key must be a string"
    );
    assert_eq!(
        BackupError::Upload(UploadError::Http(507)).message(),
        "Backup failed with status: 507"
    );
    assert_eq!(
        BackupError::Upload(UploadError::Network("timeout".to_string())).message(),
        "Backup upload failed: timeout"
    );
    assert_eq!(BackupError::UnexpectedEvent.message(), "Backup received an unexpected event");
}
