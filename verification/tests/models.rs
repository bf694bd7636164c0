use warden_vault::models::import::{FolderRelationship, ImportCipher, ImportFolder, ImportRequest};

#[test]
fn import_request_holds_ciphers_folders_and_relationships() {
    let cipher = ImportCipher {
        cipher_type: 1,
        folder_id: None,
        organization_id: None,
        name: "2.name".to_string(),
        notes: None,
        favorite: false,
        login: Some(serde_json::from_str(r#"{"username":"2.u","password":"2.p"}"#).unwrap()),
        card: None,
        identity: None,
        secure_note: None,
        fields: None,
        password_history: None,
        reprompt: Some(0),
        last_known_revision_date: None,
        encrypted_for: "user-id".to_string(),
    };
    let request = ImportRequest {
        ciphers: vec![cipher],
        folders: vec![ImportFolder { id: "f1".to_string(), name: "2.folder".to_string() }],
        folder_relationships: vec![FolderRelationship { key: 0, value: 0 }],
    };
    assert_eq!(request.ciphers.len(), 1);
    assert_eq!(request.ciphers[0].cipher_type, 1);
    assert_eq!(request.folders[0], ImportFolder { id: "f1".to_string(), name: "2.folder".to_string() });
    assert_eq!(request.folder_relationships[0], FolderRelationship { key: 0, value: 0 });
    assert_eq!(request.folder_relationships[0].key, 0);
}
