//! The snapshot of the vault's tables that a backup carries.

use crate::clock::Moment;
use crate::error::ExportError;
use crate::json::{
    array_value, json_pretty, json_view, object3, object_of3, pretty_text, rendered_view,
    rows_view, string_value, Json,
};
use vstd::prelude::*;

verus! {

/// The tables a backup covers. Their number is fixed: covering another table
/// is a change of the snapshot's format.
#[derive(Debug, Clone, Copy, PartialEq, Eq, Structural)]
pub enum Table {
    Users,
    Ciphers,
    Folders,
}

impl Table {
    /// The table's name in the store and in the snapshot.
    pub open spec fn name_text(self) -> Seq<char> {
        match self {
            Table::Users => "users"@,
            Table::Ciphers => "ciphers"@,
            Table::Folders => "folders"@,
        }
    }

    /// The query that reads the whole table.
    pub open spec fn query_text(self) -> Seq<char> {
        "SELECT * FROM "@ + self.name_text()
    }

    /// The table's name in the store and in the snapshot.
    pub fn name(self) -> (text: &'static str)
        ensures
            text@ == self.name_text(),
    {
        match self {
            Table::Users => "users",
            Table::Ciphers => "ciphers",
            Table::Folders => "folders",
        }
    }

    /// The query that reads the whole table, unfiltered.
    pub fn query(self) -> (text: String)
        ensures
            text@ == self.query_text(),
    {
        let mut text: String = String::from_str("SELECT * FROM ");
        text.append(self.name());
        text
    }
}

/// The format version that snapshots are written in.
pub open spec fn snapshot_version() -> Seq<char> {
    "1.0"@
}

/// A point-in-time capture of the vault's tables. It is made in one piece
/// and cannot be changed afterwards. The rows are whatever the store
/// returned, in the order it returned them.
#[derive(Debug, PartialEq, Eq)]
pub struct BackupSnapshot {
    version: String,
    timestamp: String,
    users: Vec<serde_json::Value>,
    ciphers: Vec<serde_json::Value>,
    folders: Vec<serde_json::Value>,
}

/// Mathematical value of a [`BackupSnapshot`].
pub struct BackupSnapshotView {
    pub version: Seq<char>,
    pub timestamp: Seq<char>,
    pub users: Seq<Json>,
    pub ciphers: Seq<Json>,
    pub folders: Seq<Json>,
}

impl View for BackupSnapshot {
    type V = BackupSnapshotView;

    closed spec fn view(&self) -> BackupSnapshotView {
        BackupSnapshotView {
            version: self.version@,
            timestamp: self.timestamp@,
            users: rows_view(self.users@),
            ciphers: rows_view(self.ciphers@),
            folders: rows_view(self.folders@),
        }
    }
}

/// The snapshot of three tables taken at a given time.
pub open spec fn snapshot_of(
    timestamp: Seq<char>,
    users: Seq<Json>,
    ciphers: Seq<Json>,
    folders: Seq<Json>,
) -> BackupSnapshotView {
    BackupSnapshotView { version: snapshot_version(), timestamp, users, ciphers, folders }
}

/// What an export yields: the snapshot of the three tables, taken when the
/// last of them has been read. A store that does not open, or a table that
/// cannot be read (`None`), fails the whole export; of several failures the
/// first in the order store, users, ciphers, folders is reported. There is
/// no snapshot of some of the tables.
pub open spec fn exported(
    store_opens: bool,
    users: Option<Seq<Json>>,
    ciphers: Option<Seq<Json>>,
    folders: Option<Seq<Json>>,
    timestamp: Seq<char>,
) -> Result<BackupSnapshotView, ExportError> {
    if !store_opens {
        Err(ExportError::StoreUnavailable)
    } else {
        match (users, ciphers, folders) {
            (None, _, _) => Err(ExportError::QueryFailed(Table::Users)),
            (Some(_), None, _) => Err(ExportError::QueryFailed(Table::Ciphers)),
            (Some(_), Some(_), None) => Err(ExportError::QueryFailed(Table::Folders)),
            (Some(users), Some(ciphers), Some(folders)) => Ok(
                snapshot_of(timestamp, users, ciphers, folders),
            ),
        }
    }
}

/// The `tables` member of a snapshot's document: one array per table.
pub open spec fn tables_document(snapshot: BackupSnapshotView) -> Json {
    object3(
        "users"@,
        Json::Array(snapshot.users),
        "ciphers"@,
        Json::Array(snapshot.ciphers),
        "folders"@,
        Json::Array(snapshot.folders),
    )
}

/// The JSON document of a snapshot: its version, its timestamp, and its
/// tables.
pub open spec fn snapshot_document(snapshot: BackupSnapshotView) -> Json {
    object3(
        "version"@,
        Json::String(snapshot.version),
        "timestamp"@,
        Json::String(snapshot.timestamp),
        "tables"@,
        tables_document(snapshot),
    )
}
impl BackupSnapshot {
    /// Every snapshot is written in the one format version.
    #[verifier::type_invariant]
    spec fn well_formed(self) -> bool {
        self.version@ == snapshot_version()
    }

    /// Captures the rows of the three tables at a moment.
    pub fn new(
        taken: &Moment,
        users: Vec<serde_json::Value>,
        ciphers: Vec<serde_json::Value>,
        folders: Vec<serde_json::Value>,
    ) -> (snapshot: BackupSnapshot)
        ensures
            snapshot@ == snapshot_of(
                taken@.rfc3339,
                rows_view(users@),
                rows_view(ciphers@),
                rows_view(folders@),
            ),
    {
        BackupSnapshot {
            version: String::from_str("1.0"),
            timestamp: String::from_str(taken.rfc3339()),
            users,
            ciphers,
            folders,
        }
    }

    /// The format version.
    pub fn version(&self) -> (text: &str)
        ensures
            text@ == self@.version,
            text@ == snapshot_version(),
    {
        proof {
            use_type_invariant(self);
        }
        self.version.as_str()
    }

    /// When the snapshot was taken, in RFC 3339 form.
    pub fn timestamp(&self) -> (text: &str)
        ensures
            text@ == self@.timestamp,
    {
        self.timestamp.as_str()
    }

    /// The rows of one table.
    pub fn rows(&self, table: Table) -> (rows: &Vec<serde_json::Value>)
        ensures
            rows_view(rows@) == match table {
                Table::Users => self@.users,
                Table::Ciphers => self@.ciphers,
                Table::Folders => self@.folders,
            },
    {
        match table {
            Table::Users => &self.users,
            Table::Ciphers => &self.ciphers,
            Table::Folders => &self.folders,
        }
    }

    /// Turns the snapshot into its JSON document.
    pub fn into_document(self) -> (document: serde_json::Value)
        ensures
            json_view(document) == snapshot_document(self@),
    {
        proof {
            reveal_strlit("users");
            reveal_strlit("ciphers");
            reveal_strlit("folders");
            reveal_strlit("version");
            reveal_strlit("timestamp");
            reveal_strlit("tables");
            assert("users"@.len() == 5 && "ciphers"@.len() == 7);
            assert("ciphers"@[0] != "folders"@[0]);
            assert("version"@.len() == 7 && "timestamp"@.len() == 9 && "tables"@.len() == 6);
        }
        let tables: serde_json::Value = object_of3(
            "users",
            array_value(self.users),
            "ciphers",
            array_value(self.ciphers),
            "folders",
            array_value(self.folders),
        );
        object_of3(
            "version",
            string_value(self.version.as_str()),
            "timestamp",
            string_value(self.timestamp.as_str()),
            "tables",
            tables,
        )
    }

    /// Writes the snapshot as pretty-printed JSON text. Whether the writer
    /// succeeds is its own affair; text and error are those it gives for
    /// the snapshot's document.
    pub fn render(self) -> (rendered: Result<String, serde_json::Error>)
        ensures
            rendered_view(rendered) == json_pretty(snapshot_document(self@)),
    {
        let document: serde_json::Value = self.into_document();
        pretty_text(&document)
    }
}

/// The export of a store whose tables can all be read is the snapshot of
/// their rows. A snapshot holds, under the format version `1.0`, the rows of
/// each table as they were read, as many and in the same order. Its document
/// is an object with the members `version`, `timestamp` and `tables` and no
/// other; `tables` is an object with one array per table, of exactly these
/// rows, and no other member.
pub proof fn lemma_snapshot_structure(
    timestamp: Seq<char>,
    users: Seq<Json>,
    ciphers: Seq<Json>,
    folders: Seq<Json>,
)
    ensures
        exported(true, Some(users), Some(ciphers), Some(folders), timestamp) == Ok::<
            BackupSnapshotView,
            ExportError,
        >(snapshot_of(timestamp, users, ciphers, folders)),
        snapshot_of(timestamp, users, ciphers, folders).version == "1.0"@,
        snapshot_of(timestamp, users, ciphers, folders).users == users,
        snapshot_of(timestamp, users, ciphers, folders).ciphers == ciphers,
        snapshot_of(timestamp, users, ciphers, folders).folders == folders,
        ({
            let document = snapshot_document(snapshot_of(timestamp, users, ciphers, folders));
            let tables = document.member("tables"@);
            &&& document is Object
            &&& document.keys() == set!["version"@, "timestamp"@, "tables"@]
            &&& document.member("version"@) == Json::String("1.0"@)
            &&& document.member("timestamp"@) == Json::String(timestamp)
            &&& tables is Object
            &&& tables.keys() == set!["users"@, "ciphers"@, "folders"@]
            &&& tables.member("users"@) == Json::Array(users)
            &&& tables.member("ciphers"@) == Json::Array(ciphers)
            &&& tables.member("folders"@) == Json::Array(folders)
            &&& tables.member("users"@).items().len() == users.len()
            &&& tables.member("ciphers"@).items().len() == ciphers.len()
            &&& tables.member("folders"@).items().len() == folders.len()
        }),
{
    reveal_strlit("users");
    reveal_strlit("ciphers");
    reveal_strlit("folders");
    reveal_strlit("version");
    reveal_strlit("timestamp");
    reveal_strlit("tables");
    assert("users"@.len() == 5 && "ciphers"@.len() == 7);
    assert("ciphers"@[0] != "folders"@[0]);
    assert("version"@.len() == 7 && "timestamp"@.len() == 9 && "tables"@.len() == 6);
    let document = snapshot_document(snapshot_of(timestamp, users, ciphers, folders));
    assert(document.keys() =~= set!["version"@, "timestamp"@, "tables"@]);
    assert(document.member("tables"@).keys() =~= set!["users"@, "ciphers"@, "folders"@]);
}

} // verus!
