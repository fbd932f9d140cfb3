//! The messages between the caller's side of a durable store and its worker.

use crate::sqlite_undo_store_error::SqliteUndoStoreError;
use vstd::prelude::*;

verus! {

/// A request to the worker.
#[derive(Debug, Clone, PartialEq, Eq)]
pub enum PersistCmd {
    Open { dir: String },
    Close,
    /// Commit the encoded command above the command `seq_no`.
    AddCmd { seq_no: i64, ser_cmd: Vec<u8> },
    Undo,
    Redo,
}

/// An answer of the worker.
#[derive(Debug, Clone, PartialEq, Eq)]
pub enum PersistResp {
    OpenOk { serialized_model: Vec<u8>, seq_no: i64, min_max_seq_no: Option<(i64, i64)> },
    OpenErr(SqliteUndoStoreError),
    CloseOk,
    CloseErr(SqliteUndoStoreError),
    AddCmdOk { seq_no: i64 },
    AddCmdErr(SqliteUndoStoreError),
    UndoOk { seq_no: i64, serialized_command: Vec<u8> },
    UndoErr(SqliteUndoStoreError),
    RedoOk { seq_no: i64, serialized_command: Vec<u8> },
    RedoErr(SqliteUndoStoreError),
}

} // verus!
