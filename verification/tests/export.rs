use serde_json::Value;
use warden_vault::clock::{Moment, Timestamp};
use warden_vault::export::{BackupSnapshot, Table};

fn row(text: &str) -> Value {
    serde_json::from_str(text).unwrap()
}

fn taken() -> Moment {
    Moment::at(Timestamp { seconds: 1704164645, nanos: 0 }).unwrap()
}

#[test]
fn table_names_and_queries() {
    assert_eq!(Table::Users.name(), "users");
    assert_eq!(Table::Ciphers.name(), "ciphers");
    assert_eq!(Table::Folders.name(), "folders");
    assert_eq!(Table::Users.query(), "SELECT * FROM users");
    assert_eq!(Table::Ciphers.query(), "SELECT * FROM ciphers");
    assert_eq!(Table::Folders.query(), "SELECT * FROM folders");
}

#[test]
fn snapshot_keeps_rows_in_order() {
    let users = vec![row(r#"{"id":2}"#), row(r#"{"id":1}"#), row(r#"{"id":3}"#)];
    let ciphers = vec![row(r#"{"id":"c"}"#)];
    let folders: Vec<Value> = vec![];
    let snapshot = BackupSnapshot::new(&taken(), users.clone(), ciphers.clone(), folders.clone());
    assert_eq!(snapshot.version(), "1.0");
    assert_eq!(snapshot.timestamp(), "2024-01-02T03:04:05+00:00");
    assert_eq!(snapshot.rows(Table::Users), &users);
    assert_eq!(snapshot.rows(Table::Ciphers), &ciphers);
    assert_eq!(snapshot.rows(Table::Folders), &folders);
}

#[test]
fn document_has_version_timestamp_and_three_tables() {
    let users = vec![row(r#"{"id":2}"#), row(r#"{"id":1}"#)];
    let ciphers = vec![row(r#"{"id":"c","n":[1,2,3]}"#)];
    let folders = vec![row("null"), row("17"), row(r#""text""#)];
    let document =
        BackupSnapshot::new(&taken(), users.clone(), ciphers.clone(), folders.clone()).into_document();
    let expected = row(
        r#"{"version":"1.0","timestamp":"2024-01-02T03:04:05+00:00","tables":{"users":[{"id":2},{"id":1}],"ciphers":[{"id":"c","n":[1,2,3]}],"folders":[null,17,"text"]}}"#,
    );
    assert_eq!(document, expected);
    assert_eq!(document["tables"]["users"], Value::Array(users));
    assert_eq!(document["tables"]["ciphers"], Value::Array(ciphers));
    assert_eq!(document["tables"]["folders"], Value::Array(folders));
}

#[test]
fn render_is_pretty_printed_json() {
    let users = vec![row(r#"{"id":"u1","name":"A \"quoted\" name"}"#)];
    let text = BackupSnapshot::new(&taken(), users, vec![], vec![]).render().unwrap();
    assert_eq!(
        text,
        "{\n  \"tables\": {\n    \"ciphers\": [],\n    \"folders\": [],\n    \"users\": [\n      {\n        \"id\": \"u1\",\n        \"name\": \"A \\\"quoted\\\" name\"\n      }\n    ]\n  },\n  \"timestamp\": \"2024-01-02T03:04:05+00:00\",\n  \"version\": \"1.0\"\n}"
    );
}

#[test]
fn rendered_snapshot_parses_back_to_the_rows() {
    let users = vec![
        row(r#"{"id":"u1","email":"a@example.com","n":1.5,"big":18446744073709551615,"neg":-9223372036854775808}"#),
        row(r#"{"id":"u2","nested":{"a":[true,false,null],"b":{"c":"d"}}}"#),
    ];
    let ciphers = vec![row(r#"{"data":"line\nbreak\ttab é 中 😀"}"#)];
    let folders = vec![row("[]"), row("{}")];
    let text = BackupSnapshot::new(&taken(), users.clone(), ciphers.clone(), folders.clone())
        .render()
        .unwrap();
    let parsed: Value = serde_json::from_str(&text).unwrap();
    assert_eq!(parsed["tables"]["users"].as_array().unwrap(), &users);
    assert_eq!(parsed["tables"]["ciphers"].as_array().unwrap(), &ciphers);
    assert_eq!(parsed["tables"]["folders"].as_array().unwrap(), &folders);
    assert_eq!(parsed["version"], "1.0");
}
