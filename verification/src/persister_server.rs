//! The worker's side of a durable store.
//!
//! The server owns the tables of the store file and a replica of the model.
//! It decides what each request does to them and what is answered; its owner
//! receives the requests, touches the file system, writes the journal of the
//! tables through to the file and sends the answers.

use crate::cmd::{Cmd, SerializableCmd};
use crate::options::MAX_COMMAND_ID;
use crate::protocol::{PersistCmd, PersistResp};
use crate::restore::{reports_restore, restore_model, restored, Restored};
use crate::sqlite_undo_store_error::SqliteUndoStoreError;
use crate::tables::{Tables, TablesView, Write};
use std::marker::PhantomData;
use vstd::prelude::*;

verus! {

/// Whether a snapshot is written after commands have been trimmed: there is
/// none yet, or the last one lies before the retained commands.
pub open spec fn snapshot_is_due(last_snapshot_id: Option<i64>, seq_no: int, undo_limit: int) -> bool {
    match last_snapshot_id {
        None => true,
        Some(last) => last < seq_no - undo_limit,
    }
}

/// How the write path ends.
pub struct Written {
    pub tables: TablesView,
    /// False where a snapshot was to be written and the model could not be
    /// encoded.
    pub done: bool,
}

/// The write path: what committing the encoded command `ser_cmd` under the
/// id `seq_no` does to the tables. `ser_model` is the encoded model with the
/// command applied, `None` where it cannot be encoded.
///
/// The commands from `seq_no` on are deleted, the command is inserted, the
/// current sequence number is set, and the commands beyond the undo limit are
/// trimmed. Where that trimmed a command and a snapshot is due, one is written.
/// Where the first step deleted a command, all snapshots are replaced by a
/// new one; else all but the last are deleted.
pub open spec fn write_path(
    t: TablesView,
    seq_no: i64,
    ser_cmd: Seq<u8>,
    undo_limit: nat,
    ser_model: Option<Seq<u8>>,
) -> Written {
    let t1 = t.executed(Write::DeleteCommandsFrom(seq_no));
    let deleted = t.stored.commands.len() - t1.stored.commands.len();
    let t2 = t1.executed(Write::InsertCommand(seq_no, ser_cmd));
    let t3 = t2.executed(Write::UpdateSeqNo(seq_no));
    let t4 = t3.executed(Write::TrimCommands(undo_limit));
    let removed = t3.stored.commands.len() - t4.stored.commands.len();
    let due = removed != 0 && snapshot_is_due(
        t4.stored.last_snapshot_id(),
        seq_no as int,
        undo_limit as int,
    );
    if !due && deleted == 0 {
        Written { tables: t4.executed(Write::TrimSnapshots), done: true }
    } else {
        match ser_model {
            None => Written { tables: t4, done: false },
            Some(bytes) => {
                let t5 = if due {
                    t4.executed(Write::InsertSnapshot(seq_no, bytes))
                } else {
                    t4
                };
                let t6 = if deleted != 0 {
                    t5.executed(Write::DeleteSnapshots).executed(
                        Write::InsertSnapshot(seq_no, bytes),
                    )
                } else {
                    t5.executed(Write::TrimSnapshots)
                };
                Written { tables: t6, done: true }
            },
        }
    }
}

/// Decides whether a snapshot is due: see [`snapshot_is_due`].
pub fn is_snapshot_due(last_snapshot_id: Option<i64>, seq_no: i64, undo_limit: usize) -> (due: bool)
    ensures
        due == snapshot_is_due(last_snapshot_id, seq_no as int, undo_limit as int),
{
    match last_snapshot_id {
        None => true,
        Some(last_snapshot_id) => (last_snapshot_id as i128) < seq_no as i128 - undo_limit as i128,
    }
}

/// Runs the write path on the tables: see [`write_path`]. `model` is the model
/// with the command applied.
pub fn write_command<C: SerializableCmd>(
    tables: &mut Tables,
    model: &C::Model,
    seq_no: i64,
    ser_cmd: Vec<u8>,
    undo_limit: usize,
) -> (r: Result<(), SqliteUndoStoreError>)
    requires
        old(tables).wf(),
    ensures
        final(tables).wf(),
        ({
            let written = write_path(
                old(tables)@,
                seq_no,
                ser_cmd@,
                undo_limit as nat,
                C::encoded_model(model),
            );
            &&& final(tables)@ == written.tables
            &&& written.done ==> r is Ok
            &&& !written.done ==> r matches Err(SqliteUndoStoreError::SerializeError(_))
        }),
{
    broadcast use vstd::seq_lib::group_filter_ensures;
    // After some steps back the commands that were taken back are cut off.

    let delete_count = tables.delete_commands_from(seq_no);
    proof {
        let rows = tables@.stored.commands;
        if rows.len() > 0 {
            let pred = |row: (i64, Seq<u8>)| row.0 < seq_no;
            old(tables)@.stored.commands.lemma_filter_pred(pred, rows.len() - 1);
        }
    }
    tables.insert_command(seq_no, ser_cmd);
    tables.save_seq_no(seq_no);
    let removed_count = tables.trim_undo_records(undo_limit);
    let due = removed_count != 0 && is_snapshot_due(
        tables.get_last_snapshot_id(),
        seq_no,
        undo_limit,
    );
    if !due && delete_count == 0 {
        tables.trim_snapshots();
        return Ok(());
    }
    let serialized = match C::encode_model(model) {
        Err(err) => {
            return Err(SqliteUndoStoreError::SerializeError(err));
        },
        Ok(serialized) => serialized,
    };
    if due {
        let copy = serialized.clone();
        proof {
            assert(copy@ =~= serialized@);
        }
        tables.save_snapshot(seq_no, copy);
    }
    if delete_count != 0 {
        tables.delete_snapshots();
        tables.save_snapshot(seq_no, serialized);
    } else {
        tables.trim_snapshots();
    }
    Ok(())
}

/// What the worker holds.
pub enum PersisterServerState<M> {
    Idle,
    Loaded { base_dir: String, sqlite_path: String, cur_cmd_seq_no: i64, model: M, tables: Tables },
}

/// What the owner of the server is to do.
#[derive(Debug)]
#[allow(inconsistent_fields)]
pub enum ServerAction {
    /// Lock the directory, open or create the store file in it, load its
    /// tables and hand them to [`PersisterServer::opened`].
    Open { dir: String },
    /// Write the journal of the tables through to the file, then send the
    /// answer; where writing fails, send what [`write_failed`] makes of it.
    Reply(PersistResp),
    /// Close the store file, release the lock of this directory, then send
    /// the answer.
    Refuse { unlock: String, resp: PersistResp },
    /// Release the lock of this directory where one is named, send
    /// [`PersistResp::CloseOk`] and stop.
    Close { unlock: Option<String> },
}

/// The answer to send in place of `resp` where the journal could not be
/// written through: the failure, as an answer to the same request.
pub fn write_failed(resp: PersistResp, err: SqliteUndoStoreError) -> (r: PersistResp)
    ensures
        r == (match resp {
            PersistResp::OpenOk { .. } => PersistResp::OpenErr(err),
            PersistResp::CloseOk => PersistResp::CloseErr(err),
            PersistResp::AddCmdOk { .. } => PersistResp::AddCmdErr(err),
            PersistResp::UndoOk { .. } => PersistResp::UndoErr(err),
            PersistResp::RedoOk { .. } => PersistResp::RedoErr(err),
            _ => resp,
        }),
{
    match resp {
        PersistResp::OpenOk { .. } => PersistResp::OpenErr(err),
        PersistResp::CloseOk => PersistResp::CloseErr(err),
        PersistResp::AddCmdOk { .. } => PersistResp::AddCmdErr(err),
        PersistResp::UndoOk { .. } => PersistResp::UndoErr(err),
        PersistResp::RedoOk { .. } => PersistResp::RedoErr(err),
        other => other,
    }
}

pub struct PersisterServer<C: SerializableCmd> {
    pub phantom: PhantomData<C>,
    pub undo_limit: usize,
    pub state: PersisterServerState<C::Model>,
}

impl<C: SerializableCmd> PersisterServer<C> {
    /// The rows of the tables are ordered.
    pub open spec fn wf(&self) -> bool {
        match self.state {
            PersisterServerState::Idle => true,
            PersisterServerState::Loaded { tables, .. } => tables.wf(),
        }
    }

    pub fn new(undo_limit: usize) -> (r: Self)
        ensures
            r.undo_limit == undo_limit,
            r.state is Idle,
            r.wf(),
    {
        Self { undo_limit, phantom: PhantomData, state: PersisterServerState::Idle }
    }

    /// The least and the greatest id of the retained commands.
    pub fn min_max_seq_no(&self) -> (r: Option<(i64, i64)>)
        ensures
            r == (match self.state {
                PersisterServerState::Idle => None,
                PersisterServerState::Loaded { tables, .. } => tables@.stored.min_max(),
            }),
    {
        match &self.state {
            PersisterServerState::Idle => None,
            PersisterServerState::Loaded { tables, .. } => tables.min_max_seq_no(),
        }
    }

    /// Hands out the statements that are to be written through to the file.
    pub fn take_writes(&mut self) -> (writes: Vec<crate::tables::DbWrite>)
        ensures
            match (old(self).state, final(self).state) {
                (PersisterServerState::Idle, PersisterServerState::Idle) => writes@.len() == 0,
                (
                    PersisterServerState::Loaded {
                        base_dir: dir_before,
                        sqlite_path: path_before,
                        cur_cmd_seq_no: cur_before,
                        model: model_before,
                        tables: tables_before,
                    },
                    PersisterServerState::Loaded {
                        base_dir: dir_after,
                        sqlite_path: path_after,
                        cur_cmd_seq_no: cur_after,
                        model: model_after,
                        tables: tables_after,
                    },
                ) => {
                    &&& dir_before == dir_after && path_before == path_after && cur_before == cur_after && model_before == model_after
                    &&& crate::tables::writes_view(writes@) == tables_before@.pending
                    &&& tables_after@.stored == tables_before@.stored
                    &&& tables_after@.pending == Seq::<Write>::empty()
                },
                _ => false,
            },
            final(self).undo_limit == old(self).undo_limit,
    {
        match &mut self.state {
            PersisterServerState::Idle => Vec::new(),
            PersisterServerState::Loaded { tables, .. } => tables.take_writes(),
        }
    }

    /// What [`Self::undo`] does: `post` and `r` are the server and the result
    /// after it has been called on `pre`.
    pub open spec fn undo_spec(
        pre: Self,
        post: Self,
        r: Result<(i64, Vec<u8>), SqliteUndoStoreError>,
    ) -> bool {
        &&& post.undo_limit == pre.undo_limit
        &&& match pre.state {
            PersisterServerState::Idle => r == Err::<(i64, Vec<u8>), SqliteUndoStoreError>(
                SqliteUndoStoreError::NotOpend,
            ) && post.state == pre.state,
            PersisterServerState::Loaded { base_dir, sqlite_path, cur_cmd_seq_no, model, tables } => {
                match tables@.stored.command(cur_cmd_seq_no as int) {
                    None => r == Err::<(i64, Vec<u8>), SqliteUndoStoreError>(
                        SqliteUndoStoreError::CannotUndoRedo,
                    ) && post.state == pre.state,
                    Some(bytes) => match C::decoded(bytes) {
                        None => {
                            &&& r matches Err(
                                SqliteUndoStoreError::CannotDeserialize {
                                    path: Some(p),
                                    seq_no: s,
                                    ..
                                },
                            )
                            &&& p == sqlite_path
                            &&& s == cur_cmd_seq_no
                            &&& post.state == pre.state
                        },
                        Some(cmd) => if cur_cmd_seq_no == i64::MIN {
                            // There is no position before the least one.
                            r == Err::<(i64, Vec<u8>), SqliteUndoStoreError>(
                                SqliteUndoStoreError::CannotUndoRedo,
                            ) && post.state == pre.state
                        } else {
                            &&& r matches Ok((s, b))
                            &&& s == cur_cmd_seq_no
                            &&& b@ == bytes
                            &&& post.state matches PersisterServerState::Loaded {
                                base_dir: dir_after,
                                sqlite_path: path_after,
                                cur_cmd_seq_no: cur_after,
                                model: model_after,
                                tables: tables_after,
                            }
                            &&& dir_after == base_dir
                            &&& path_after == sqlite_path
                            &&& cur_after == cur_cmd_seq_no - 1
                            &&& model_after == cmd.undone(model)
                            &&& tables_after@ == tables@.executed(
                                Write::UpdateSeqNo((cur_cmd_seq_no - 1) as i64),
                            )
                        },
                    },
                }
            },
        }
    }

    /// What [`Self::redo`] does: `post` and `r` are the server and the result
    /// after it has been called on `pre`.
    pub open spec fn redo_spec(
        pre: Self,
        post: Self,
        r: Result<(i64, Vec<u8>), SqliteUndoStoreError>,
    ) -> bool {
        &&& post.undo_limit == pre.undo_limit
        &&& match pre.state {
            PersisterServerState::Idle => r == Err::<(i64, Vec<u8>), SqliteUndoStoreError>(
                SqliteUndoStoreError::NotOpend,
            ) && post.state == pre.state,
            PersisterServerState::Loaded { base_dir, sqlite_path, cur_cmd_seq_no, model, tables } => {
                match tables@.stored.command(cur_cmd_seq_no + 1) {
                    None => r == Err::<(i64, Vec<u8>), SqliteUndoStoreError>(
                        SqliteUndoStoreError::CannotUndoRedo,
                    ) && post.state == pre.state,
                    Some(bytes) => match C::decoded(bytes) {
                        None => {
                            &&& r matches Err(
                                SqliteUndoStoreError::CannotDeserialize {
                                    path: Some(p),
                                    seq_no: s,
                                    ..
                                },
                            )
                            &&& p == sqlite_path
                            &&& s == cur_cmd_seq_no
                            &&& post.state == pre.state
                        },
                        Some(cmd) => {
                            &&& r matches Ok((s, b))
                            &&& s == cur_cmd_seq_no
                            &&& b@ == bytes
                            &&& post.state matches PersisterServerState::Loaded {
                                base_dir: dir_after,
                                sqlite_path: path_after,
                                cur_cmd_seq_no: cur_after,
                                model: model_after,
                                tables: tables_after,
                            }
                            &&& dir_after == base_dir
                            &&& path_after == sqlite_path
                            &&& cur_after == cur_cmd_seq_no + 1
                            &&& model_after == cmd.redone(model)
                            &&& tables_after@ == tables@.executed(
                                Write::UpdateSeqNo((cur_cmd_seq_no + 1) as i64),
                            )
                        },
                    },
                }
            },
        }
    }

    /// What [`Self::add_cmd`] does: `post` and `r` are the server and the
    /// result after it has been called on `pre`.
    pub open spec fn add_cmd_spec(
        pre: Self,
        post: Self,
        seq_no: i64,
        ser_cmd: Seq<u8>,
        r: Result<(), SqliteUndoStoreError>,
    ) -> bool {
        &&& post.undo_limit == pre.undo_limit
        &&& match pre.state {
            PersisterServerState::Idle => r == Err::<(), SqliteUndoStoreError>(
                SqliteUndoStoreError::NotOpend,
            ) && post.state == pre.state,
            PersisterServerState::Loaded { base_dir, sqlite_path, cur_cmd_seq_no, model, tables } => {
                match C::decoded(ser_cmd) {
                    None => {
                        &&& r matches Err(
                            SqliteUndoStoreError::CannotDeserialize { path: None, seq_no: s, .. },
                        )
                        &&& s == seq_no
                        &&& post.state == pre.state
                    },
                    Some(cmd) => {
                        if seq_no >= MAX_COMMAND_ID - 1 {
                            r == Err::<(), SqliteUndoStoreError>(
                                SqliteUndoStoreError::NeedCompaction(sqlite_path),
                            ) && post.state == pre.state
                        } else {
                            let written = write_path(
                                tables@,
                                (seq_no + 1) as i64,
                                ser_cmd,
                                pre.undo_limit as nat,
                                C::encoded_model(&cmd.redone(model)),
                            );
                            &&& written.done ==> r is Ok
                            &&& !written.done ==> (r matches Err(
                                SqliteUndoStoreError::SerializeError(_),
                            ))
                            &&& post.state matches PersisterServerState::Loaded {
                                base_dir: dir_after,
                                sqlite_path: path_after,
                                cur_cmd_seq_no: cur_after,
                                model: model_after,
                                tables: tables_after,
                            }
                            &&& dir_after == base_dir
                            &&& path_after == sqlite_path
                            &&& cur_after == (if written.done {
                                (seq_no + 1) as i64
                            } else {
                                cur_cmd_seq_no
                            })
                            &&& model_after == cmd.redone(model)
                            &&& tables_after@ == written.tables
                        }
                    },
                }
            },
        }
    }

    /// Takes the command at the current position back from the replica and
    /// moves the position one back. Returns the position that was left and the
    /// encoded command. Fails, with nothing changed, where the server is not
    /// open, where there is no command at the current position, where the
    /// command cannot be decoded, or where there is no position before the
    /// current one.
    pub fn undo(&mut self) -> (r: Result<(i64, Vec<u8>), SqliteUndoStoreError>)
        requires
            old(self).wf(),
        ensures
            final(self).wf(),
            Self::undo_spec(*old(self), *final(self), r),
    {
        match &mut self.state {
            PersisterServerState::Idle => Err(SqliteUndoStoreError::NotOpend),
            PersisterServerState::Loaded { base_dir: _, sqlite_path, cur_cmd_seq_no, model, tables } => {
                let ser_cmd: Vec<u8> = match tables.command(*cur_cmd_seq_no) {
                    None => {
                        return Err(SqliteUndoStoreError::CannotUndoRedo);
                    },
                    Some(ser) => {
                        let copy = ser.clone();
                        proof {
                            assert(copy@ =~= ser@);
                        }
                        copy
                    },
                };
                let cmd = match C::decode(&ser_cmd) {
                    Err(ser_err) => {
                        return Err(
                            SqliteUndoStoreError::CannotDeserialize {
                                path: Some(sqlite_path.clone()),
                                seq_no: *cur_cmd_seq_no,
                                ser_err,
                            },
                        );
                    },
                    Ok(cmd) => cmd,
                };
                if *cur_cmd_seq_no == i64::MIN {
                    // There is no position before the least one.
                    return Err(SqliteUndoStoreError::CannotUndoRedo);
                }
                cmd.undo(model);
                *cur_cmd_seq_no -= 1;
                tables.save_seq_no(*cur_cmd_seq_no);
                Ok((*cur_cmd_seq_no + 1, ser_cmd))
            },
        }
    }

    /// Applies the command above the current position to the replica and
    /// moves the position one forward. Returns the position that was left and
    /// the encoded command. Fails, with nothing changed, where the server is
    /// not open, where there is no command above the current position, or
    /// where the command cannot be decoded.
    pub fn redo(&mut self) -> (r: Result<(i64, Vec<u8>), SqliteUndoStoreError>)
        requires
            old(self).wf(),
        ensures
            final(self).wf(),
            Self::redo_spec(*old(self), *final(self), r),
    {
        match &mut self.state {
            PersisterServerState::Idle => Err(SqliteUndoStoreError::NotOpend),
            PersisterServerState::Loaded { base_dir: _, sqlite_path, cur_cmd_seq_no, model, tables } => {
                if *cur_cmd_seq_no == i64::MAX {
                    return Err(SqliteUndoStoreError::CannotUndoRedo);
                }
                let ser_cmd: Vec<u8> = match tables.command(*cur_cmd_seq_no + 1) {
                    None => {
                        return Err(SqliteUndoStoreError::CannotUndoRedo);
                    },
                    Some(ser) => {
                        let copy = ser.clone();
                        proof {
                            assert(copy@ =~= ser@);
                        }
                        copy
                    },
                };
                let cmd = match C::decode(&ser_cmd) {
                    Err(ser_err) => {
                        return Err(
                            SqliteUndoStoreError::CannotDeserialize {
                                path: Some(sqlite_path.clone()),
                                seq_no: *cur_cmd_seq_no,
                                ser_err,
                            },
                        );
                    },
                    Ok(cmd) => cmd,
                };
                cmd.redo(model);
                *cur_cmd_seq_no += 1;
                tables.save_seq_no(*cur_cmd_seq_no);
                Ok((*cur_cmd_seq_no - 1, ser_cmd))
            },
        }
    }

    /// Commits the encoded command above the command `seq_no`: applies it to
    /// the replica, runs the write path (see [`write_path`]) and moves the
    /// position to the new command. The write is refused, with nothing
    /// changed, where the server is not open, where the command cannot be
    /// decoded, or where the id of the command would reach
    /// [`MAX_COMMAND_ID`].
    pub fn add_cmd(&mut self, seq_no: i64, ser_cmd: Vec<u8>) -> (r: Result<
        (),
        SqliteUndoStoreError,
    >)
        requires
            old(self).wf(),
        ensures
            final(self).wf(),
            Self::add_cmd_spec(*old(self), *final(self), seq_no, ser_cmd@, r),
    {
        let undo_limit = self.undo_limit;
        match &mut self.state {
            PersisterServerState::Idle => Err(SqliteUndoStoreError::NotOpend),
            PersisterServerState::Loaded { base_dir: _, sqlite_path, cur_cmd_seq_no, model, tables } => {
                let cmd = match C::decode(&ser_cmd) {
                    Err(ser_err) => {
                        return Err(
                            SqliteUndoStoreError::CannotDeserialize { path: None, seq_no, ser_err },
                        );
                    },
                    Ok(cmd) => cmd,
                };
                if seq_no >= MAX_COMMAND_ID - 1 {
                    return Err(SqliteUndoStoreError::NeedCompaction(sqlite_path.clone()));
                }
                cmd.redo(model);
                let seq_no = seq_no + 1;
                write_command::<C>(tables, model, seq_no, ser_cmd, undo_limit)?;
                *cur_cmd_seq_no = seq_no;
                Ok(())
            },
        }
    }

    /// What [`Self::serve`] does: `post` and `action` are the server and the
    /// action after it has been called on `pre` with `cmd`.
    pub open spec fn serve_spec(pre: Self, post: Self, cmd: PersistCmd, action: ServerAction) -> bool {
        match cmd {
            PersistCmd::Open { dir } => {
                &&& post == pre
                &&& action == (if pre.state is Loaded {
                    ServerAction::Reply(PersistResp::OpenErr(SqliteUndoStoreError::AlreadyOpened))
                } else {
                    ServerAction::Open { dir }
                })
            },
            PersistCmd::Close => {
                &&& post == pre
                &&& action == (ServerAction::Close {
                    unlock: match pre.state {
                        PersisterServerState::Idle => None,
                        PersisterServerState::Loaded { base_dir, .. } => Some(base_dir),
                    },
                })
            },
            PersistCmd::AddCmd { seq_no, ser_cmd } => {
                match action {
                    ServerAction::Reply(PersistResp::AddCmdOk { seq_no: stored }) => {
                        &&& Self::add_cmd_spec(pre, post, seq_no, ser_cmd@, Ok(()))
                        &&& stored == seq_no + 1
                    },
                    ServerAction::Reply(PersistResp::AddCmdErr(err)) => Self::add_cmd_spec(
                        pre,
                        post,
                        seq_no,
                        ser_cmd@,
                        Err(err),
                    ),
                    _ => false,
                }
            },
            PersistCmd::Undo => {
                match action {
                    ServerAction::Reply(
                        PersistResp::UndoOk { seq_no, serialized_command },
                    ) => Self::undo_spec(pre, post, Ok((seq_no, serialized_command))),
                    ServerAction::Reply(PersistResp::UndoErr(err)) => Self::undo_spec(
                        pre,
                        post,
                        Err(err),
                    ),
                    _ => false,
                }
            },
            PersistCmd::Redo => {
                match action {
                    ServerAction::Reply(
                        PersistResp::RedoOk { seq_no, serialized_command },
                    ) => Self::redo_spec(pre, post, Ok((seq_no, serialized_command))),
                    ServerAction::Reply(PersistResp::RedoErr(err)) => Self::redo_spec(
                        pre,
                        post,
                        Err(err),
                    ),
                    _ => false,
                }
            },
        }
    }

    /// Takes in a request and says what is to be done about it: see
    /// [`ServerAction`]. `Open` and `Close` leave the server as it is; the other
    /// requests are carried out by [`Self::add_cmd`], [`Self::undo`] and
    /// [`Self::redo`], and their result is the answer.
    pub fn serve(&mut self, cmd: PersistCmd) -> (action: ServerAction)
        requires
            old(self).wf(),
        ensures
            final(self).wf(),
            Self::serve_spec(*old(self), *final(self), cmd, action),
    {
        match cmd {
            PersistCmd::Open { dir } => {
                match &self.state {
                    PersisterServerState::Loaded { .. } => ServerAction::Reply(
                        PersistResp::OpenErr(SqliteUndoStoreError::AlreadyOpened),
                    ),
                    PersisterServerState::Idle => ServerAction::Open { dir },
                }
            },
            PersistCmd::Close => {
                match &self.state {
                    PersisterServerState::Idle => {
                        // Already closed.
                        ServerAction::Close { unlock: None }
                    },
                    PersisterServerState::Loaded { base_dir, .. } => ServerAction::Close {
                        unlock: Some(base_dir.clone()),
                    },
                }
            },
            PersistCmd::AddCmd { seq_no, ser_cmd } => {
                match self.add_cmd(seq_no, ser_cmd) {
                    Ok(_) => ServerAction::Reply(PersistResp::AddCmdOk { seq_no: seq_no + 1 }),
                    Err(err) => ServerAction::Reply(PersistResp::AddCmdErr(err)),
                }
            },
            PersistCmd::Undo => {
                match self.undo() {
                    Ok((seq_no, serialized_command)) => ServerAction::Reply(
                        PersistResp::UndoOk { seq_no, serialized_command },
                    ),
                    Err(err) => ServerAction::Reply(PersistResp::UndoErr(err)),
                }
            },
            PersistCmd::Redo => {
                match self.redo() {
                    Ok((seq_no, serialized_command)) => ServerAction::Reply(
                        PersistResp::RedoOk { seq_no, serialized_command },
                    ),
                    Err(err) => ServerAction::Reply(PersistResp::RedoErr(err)),
                }
            },
        }
    }
}

impl<C: SerializableCmd> PersisterServer<C> where C::Model: Default {
    /// What [`Self::opened`] does, where `base` is the default model: `post`
    /// and `action` are the server and the action after it has been called on
    /// `pre`.
    pub open spec fn opened_spec(
        pre: Self,
        post: Self,
        dir: String,
        sqlite_path: String,
        loaded: Result<Tables, SqliteUndoStoreError>,
        base: C::Model,
        action: ServerAction,
    ) -> bool {
        &&& post.undo_limit == pre.undo_limit
        &&& match (pre.state, loaded) {
            (PersisterServerState::Loaded { .. }, _) => {
                &&& post.state == pre.state
                &&& action == ServerAction::Reply(
                    PersistResp::OpenErr(SqliteUndoStoreError::AlreadyOpened),
                )
            },
            (PersisterServerState::Idle, Err(err)) => {
                &&& post.state is Idle
                &&& action == ServerAction::Reply(PersistResp::OpenErr(err))
            },
            (PersisterServerState::Idle, Ok(tables)) => {
                let restored = restored::<C>(tables@.stored, base);
                let after = match tables@.stored.cur_cmd_seq_no {
                    Some(_) => tables@,
                    None => tables@.executed(Write::InsertSeqNo(0)),
                };
                match restored {
                    Restored::Model(cur, model) => match C::encoded_model(&model) {
                        Some(bytes) => {
                            &&& action matches ServerAction::Reply(
                                PersistResp::OpenOk { serialized_model, seq_no, min_max_seq_no },
                            )
                            &&& serialized_model@ == bytes
                            &&& seq_no == cur
                            &&& min_max_seq_no == tables@.stored.min_max()
                            &&& post.state matches PersisterServerState::Loaded {
                                base_dir: dir_after,
                                sqlite_path: path_after,
                                cur_cmd_seq_no: cur_after,
                                model: model_after,
                                tables: tables_after,
                            }
                            &&& dir_after == dir
                            &&& path_after == sqlite_path
                            &&& cur_after == cur
                            &&& model_after == model
                            &&& tables_after@ == after
                        },
                        None => {
                            &&& post.state is Idle
                            &&& action matches ServerAction::Refuse {
                                unlock,
                                resp: PersistResp::OpenErr(
                                    SqliteUndoStoreError::CannotDeserialize {
                                        path: Some(p),
                                        seq_no: s,
                                        ..
                                    },
                                ),
                            }
                            &&& unlock == dir
                            &&& p == sqlite_path
                            &&& s == cur
                        },
                    },
                    _ => {
                        &&& post.state is Idle
                        &&& action matches ServerAction::Refuse {
                            unlock,
                            resp: PersistResp::OpenErr(err),
                        }
                        &&& unlock == dir
                        &&& reports_restore(Err::<(i64, C::Model), SqliteUndoStoreError>(err), restored)
                    },
                }
            },
        }
    }

    /// Takes in the tables of the store file in `dir`, or the failure to open
    /// it, and says what is to be answered to `Open`.
    ///
    /// The model is restored from the tables (see [`restored`]), starting from
    /// the default model. On success the server holds the tables and the
    /// model, and the answer carries the encoded model, the current sequence
    /// number and the bounds of the retained commands. Where the model cannot
    /// be restored or encoded, the server stays idle and the lock is to be
    /// released.
    pub fn opened(
        &mut self,
        dir: String,
        sqlite_path: String,
        loaded: Result<Tables, SqliteUndoStoreError>,
    ) -> (action: ServerAction)
        requires
            old(self).wf(),
            loaded matches Ok(tables) ==> tables.wf(),
        ensures
            final(self).wf(),
            exists|base: C::Model| #[trigger]
                call_ensures(<C::Model as Default>::default, (), base) && Self::opened_spec(
                    *old(self),
                    *final(self),
                    dir,
                    sqlite_path,
                    loaded,
                    base,
                    action,
                ),
    {
        let base = <C::Model as Default>::default();
        if let PersisterServerState::Loaded { .. } = &self.state {
            return ServerAction::Reply(PersistResp::OpenErr(SqliteUndoStoreError::AlreadyOpened));
        }
        let mut tables = match loaded {
            Err(err) => {
                return ServerAction::Reply(PersistResp::OpenErr(err));
            },
            Ok(tables) => tables,
        };
        let ghost before = tables@;
        let (cur_cmd_seq_no, model) = match restore_model::<C>(&mut tables, base) {
            Err(err) => {
                return ServerAction::Refuse { unlock: dir, resp: PersistResp::OpenErr(err) };
            },
            Ok(restored) => restored,
        };
        let serialized_model = match C::encode_model(&model) {
            Err(ser_err) => {
                return ServerAction::Refuse {
                    unlock: dir,
                    resp: PersistResp::OpenErr(
                        SqliteUndoStoreError::CannotDeserialize {
                            path: Some(sqlite_path),
                            seq_no: cur_cmd_seq_no,
                            ser_err,
                        },
                    ),
                };
            },
            Ok(serialized_model) => serialized_model,
        };
        let min_max_seq_no = tables.min_max_seq_no();
        self.state =
        PersisterServerState::Loaded { base_dir: dir, sqlite_path, cur_cmd_seq_no, model, tables };
        ServerAction::Reply(
            PersistResp::OpenOk { serialized_model, seq_no: cur_cmd_seq_no, min_max_seq_no },
        )
    }
}

} // verus!
