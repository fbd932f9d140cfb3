//! What can go wrong in a durable store.

use vstd::prelude::*;
use vstd::string::StringExecFns;

verus! {

/// A failure of the durable store. Paths and causes are carried as text.
#[derive(Debug, Clone, PartialEq, Eq)]
#[allow(inconsistent_fields)]
pub enum SqliteUndoStoreError {
    // Add
    CannotWriteCmd(String, String),
    SerializeError(String),
    NeedCompaction(String),
    // Load
    NotFound(String),
    CannotReadCmd(String, String),
    DeserializeError(String),
    // Undo/Redo
    CannotUndoRedo,
    // Save as
    CannotCopyStore { from: String, to: String, error: String },
    // Restore
    CannotRestoreModel { snapshot_id: Option<i64>, not_foud_cmd_id: i64 },
    // Common
    FileError(String, String),
    NotADirectory(String),
    CannotLock { path: String, error: String },
    CannotUnlock { path: String, error: String },
    CannotDeserialize { path: Option<String>, seq_no: i64, ser_err: String },
    OrphanSnapshot(String),
    DbError(String, String),
    NotOpend,
    AlreadyOpened,
    CmdSequenceError,
}

/// `text` is how `number` is written in decimal.
pub open spec fn written(number: i64, text: Seq<char>) -> bool {
    exists|digits: String| #[trigger]
        vstd::string::to_string_from_display_ensures::<i64>(&number, digits) && digits@ == text
}

impl SqliteUndoStoreError {
    /// The message of the failure, where `first` and `second` are the numbers
    /// of the failure as they are written: the snapshot id and the command id
    /// of `CannotRestoreModel`; for `CannotDeserialize`, `second` is the
    /// sequence number.
    pub open spec fn message_with(&self, first: Seq<char>, second: Seq<char>) -> Seq<char> {
        match self {
            SqliteUndoStoreError::CannotWriteCmd(path, io_err) => "Cannot write command to "@
                + path@ + ": "@ + io_err@,
            SqliteUndoStoreError::SerializeError(ser_err) => "Cannot serialize "@ + ser_err@,
            SqliteUndoStoreError::NeedCompaction(path) => "Need compaction "@ + path@,
            SqliteUndoStoreError::NotFound(path) => "Not found "@ + path@,
            SqliteUndoStoreError::CannotReadCmd(path, io_err) => "Cannot read cmd "@ + path@
                + ": "@ + io_err@,
            SqliteUndoStoreError::DeserializeError(ser_err) => "Cannot deserialize "@ + ser_err@,
            SqliteUndoStoreError::CannotUndoRedo => "Cannot undo/redo."@,
            SqliteUndoStoreError::CannotCopyStore { from, to, error } => "Cannot copy store from "@
                + from@ + " to "@ + to@ + ": "@ + error@,
            SqliteUndoStoreError::CannotRestoreModel { snapshot_id, not_foud_cmd_id } => {
                "Cannot restore model. "@ + (match snapshot_id {
                    Some(_) => "Found snapshot_id: "@ + first + ", "@,
                    None => Seq::empty(),
                }) + "Command id "@ + second + " not found."@
            },
            SqliteUndoStoreError::FileError(path, io_err) => "File access error "@ + path@
                + ": "@ + io_err@,
            SqliteUndoStoreError::NotADirectory(path) => "Specified path is not a directory: "@
                + path@ + "."@,
            SqliteUndoStoreError::CannotLock { path, error } => "Cannot lock: "@ + path@ + ": "@
                + error@ + "."@,
            SqliteUndoStoreError::CannotUnlock { path, error } => "Cannot unlock: "@ + path@
                + ": "@ + error@ + "."@,
            SqliteUndoStoreError::CannotDeserialize { path, seq_no, ser_err } => {
                "Cannot deserialize "@ + (match path {
                    Some(p) => p@ + ", "@,
                    None => Seq::empty(),
                }) + "d: "@ + second + ": "@ + ser_err@
            },
            SqliteUndoStoreError::OrphanSnapshot(path) => "Orphan snapshot "@ + path@ + "."@,
            SqliteUndoStoreError::DbError(path, db_err) => "Database error "@ + path@ + ": "@
                + db_err@,
            SqliteUndoStoreError::NotOpend => "Not opend."@,
            SqliteUndoStoreError::AlreadyOpened => "Alread opened"@,
            SqliteUndoStoreError::CmdSequenceError => "Command sequence error."@,
        }
    }

    /// Whether `text` is the message of the failure: see [`Self::message_with`].
    pub open spec fn says(&self, text: Seq<char>) -> bool {
        match self {
            SqliteUndoStoreError::CannotRestoreModel { snapshot_id, not_foud_cmd_id } => {
                exists|first: Seq<char>, second: Seq<char>|
                    {
                        &&& snapshot_id matches Some(id) ==> written(*id, first)
                        &&& written(*not_foud_cmd_id, second)
                        &&& text == #[trigger] self.message_with(first, second)
                    }
            },
            SqliteUndoStoreError::CannotDeserialize { seq_no, .. } => {
                exists|second: Seq<char>|
                    written(*seq_no, second) && text == #[trigger] self.message_with(
                        Seq::empty(),
                        second,
                    )
            },
            _ => text == self.message_with(Seq::empty(), Seq::empty()),
        }
    }

    /// The message of the failure, with the path, the sequence number and the
    /// cause that it carries.
    pub fn message(&self) -> (text: String)
        ensures
            self.says(text@),
    {
        match self {
            SqliteUndoStoreError::CannotWriteCmd(path, io_err) => {
                let mut text = String::from_str("Cannot write command to ");
                text.append(path.as_str());
                text.append(": ");
                text.append(io_err.as_str());
                text
            },
            SqliteUndoStoreError::SerializeError(ser_err) => {
                let mut text = String::from_str("Cannot serialize ");
                text.append(ser_err.as_str());
                text
            },
            SqliteUndoStoreError::NeedCompaction(path) => {
                let mut text = String::from_str("Need compaction ");
                text.append(path.as_str());
                text
            },
            SqliteUndoStoreError::NotFound(path) => {
                let mut text = String::from_str("Not found ");
                text.append(path.as_str());
                text
            },
            SqliteUndoStoreError::CannotReadCmd(path, io_err) => {
                let mut text = String::from_str("Cannot read cmd ");
                text.append(path.as_str());
                text.append(": ");
                text.append(io_err.as_str());
                text
            },
            SqliteUndoStoreError::DeserializeError(ser_err) => {
                let mut text = String::from_str("Cannot deserialize ");
                text.append(ser_err.as_str());
                text
            },
            SqliteUndoStoreError::CannotUndoRedo => String::from_str("Cannot undo/redo."),
            SqliteUndoStoreError::CannotCopyStore { from, to, error } => {
                let mut text = String::from_str("Cannot copy store from ");
                text.append(from.as_str());
                text.append(" to ");
                text.append(to.as_str());
                text.append(": ");
                text.append(error.as_str());
                text
            },
            SqliteUndoStoreError::CannotRestoreModel { snapshot_id, not_foud_cmd_id } => {
                let mut text = String::from_str("Cannot restore model. ");
                let ghost mut first = Seq::<char>::empty();
                if let Some(snapshot_id) = snapshot_id {
                    let digits = snapshot_id.to_string();
                    proof {
                        first = digits@;
                    }
                    text.append("Found snapshot_id: ");
                    text.append(digits.as_str());
                    text.append(", ");
                }
                let digits = not_foud_cmd_id.to_string();
                text.append("Command id ");
                text.append(digits.as_str());
                text.append(" not found.");
                proof {
                    assert(text@ =~= self.message_with(first, digits@));
                }
                text
            },
            SqliteUndoStoreError::FileError(path, io_err) => {
                let mut text = String::from_str("File access error ");
                text.append(path.as_str());
                text.append(": ");
                text.append(io_err.as_str());
                text
            },
            SqliteUndoStoreError::NotADirectory(path) => {
                let mut text = String::from_str("Specified path is not a directory: ");
                text.append(path.as_str());
                text.append(".");
                text
            },
            SqliteUndoStoreError::CannotLock { path, error } => {
                let mut text = String::from_str("Cannot lock: ");
                text.append(path.as_str());
                text.append(": ");
                text.append(error.as_str());
                text.append(".");
                text
            },
            SqliteUndoStoreError::CannotUnlock { path, error } => {
                let mut text = String::from_str("Cannot unlock: ");
                text.append(path.as_str());
                text.append(": ");
                text.append(error.as_str());
                text.append(".");
                text
            },
            SqliteUndoStoreError::CannotDeserialize { path, seq_no, ser_err } => {
                let mut text = String::from_str("Cannot deserialize ");
                if let Some(p) = path {
                    text.append(p.as_str());
                    text.append(", ");
                }
                let digits = seq_no.to_string();
                text.append("d: ");
                text.append(digits.as_str());
                text.append(": ");
                text.append(ser_err.as_str());
                proof {
                    assert(text@ =~= self.message_with(Seq::empty(), digits@));
                }
                text
            },
            SqliteUndoStoreError::OrphanSnapshot(path) => {
                let mut text = String::from_str("Orphan snapshot ");
                text.append(path.as_str());
                text.append(".");
                text
            },
            SqliteUndoStoreError::DbError(path, db_err) => {
                let mut text = String::from_str("Database error ");
                text.append(path.as_str());
                text.append(": ");
                text.append(db_err.as_str());
                text
            },
            SqliteUndoStoreError::NotOpend => String::from_str("Not opend."),
            SqliteUndoStoreError::AlreadyOpened => String::from_str("Alread opened"),
            SqliteUndoStoreError::CmdSequenceError => String::from_str("Command sequence error."),
        }
    }
}

} // verus!
