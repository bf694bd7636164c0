//! The payload of a vault import: ciphers, folders, and which cipher goes
//! into which folder.

use vstd::prelude::*;

verus! {

/// A cipher as an import payload carries it. The encrypted parts are JSON
/// values that the vault stores without reading them.
#[derive(Debug, PartialEq, Eq)]
pub struct ImportCipher {
    pub cipher_type: i32,
    pub folder_id: Option<String>,
    pub organization_id: Option<String>,
    pub name: String,
    pub notes: Option<String>,
    pub favorite: bool,
    pub login: Option<serde_json::Value>,
    pub card: Option<serde_json::Value>,
    pub identity: Option<serde_json::Value>,
    pub secure_note: Option<serde_json::Value>,
    pub fields: Option<serde_json::Value>,
    pub password_history: Option<serde_json::Value>,
    pub reprompt: Option<i32>,
    pub last_known_revision_date: Option<String>,
    pub encrypted_for: String,
}

/// A folder as an import payload carries it.
#[derive(Debug, PartialEq, Eq)]
pub struct ImportFolder {
    pub id: String,
    pub name: String,
}

/// Places one cipher of an import into one of its folders: `key` is the
/// cipher's position in the payload, `value` the folder's.
#[derive(Debug, Clone, Copy, PartialEq, Eq)]
pub struct FolderRelationship {
    pub key: usize,
    pub value: usize,
}

/// A whole import payload.
#[derive(Debug, PartialEq, Eq)]
pub struct ImportRequest {
    pub ciphers: Vec<ImportCipher>,
    pub folders: Vec<ImportFolder>,
    pub folder_relationships: Vec<FolderRelationship>,
}

} // verus!
