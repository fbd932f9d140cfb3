//! Rebuilding the model from what a store file holds.

use crate::cmd::SerializableCmd;
use crate::sqlite_undo_store_error::SqliteUndoStoreError;
use crate::tables::{lookup, Stored, Tables, Write};
use vstd::prelude::*;

verus! {

/// How a replay of commands ends.
pub enum Replayed<M> {
    /// Every command was there and could be read.
    Model(M),
    /// The command with this id is not there.
    Gap(int),
    /// The command with this id cannot be decoded.
    Unreadable(int),
}

/// Applies the commands `from + 1 ..= to`, in ascending order, to `model`.
pub open spec fn replay_forward<C: SerializableCmd>(
    commands: Seq<(i64, Seq<u8>)>,
    model: C::Model,
    from: int,
    to: int,
) -> Replayed<C::Model>
    decreases to - from,
{
    if from >= to {
        Replayed::Model(model)
    } else {
        match lookup(commands, from + 1) {
            None => Replayed::Gap(from + 1),
            Some(bytes) => match C::decoded(bytes) {
                None => Replayed::Unreadable(from + 1),
                Some(cmd) => replay_forward::<C>(commands, cmd.redone(model), from + 1, to),
            },
        }
    }
}

/// Takes the commands `from`, `from - 1`, .., `to + 1` back from `model`, in
/// this order.
pub open spec fn replay_backward<C: SerializableCmd>(
    commands: Seq<(i64, Seq<u8>)>,
    model: C::Model,
    from: int,
    to: int,
) -> Replayed<C::Model>
    decreases from - to,
{
    if from <= to {
        Replayed::Model(model)
    } else {
        match lookup(commands, from) {
            None => Replayed::Gap(from),
            Some(bytes) => match C::decoded(bytes) {
                None => Replayed::Unreadable(from),
                Some(cmd) => replay_backward::<C>(commands, cmd.undone(model), from - 1, to),
            },
        }
    }
}

/// How restoring ends.
pub enum Restored<M> {
    /// The current sequence number and the model at it.
    Model(i64, M),
    /// The command `missing` is not there; `snapshot_id` is the snapshot that
    /// the replay started from.
    Gap { snapshot_id: Option<i64>, missing: int },
    /// The snapshot or the command with this id cannot be decoded.
    Unreadable(int),
}

/// The current sequence number of a store file; zero where it holds none yet.
pub open spec fn current_seq_no(s: Stored) -> i64 {
    match s.cur_cmd_seq_no {
        Some(cur) => cur,
        None => 0,
    }
}

/// The model at the current sequence number of `s`.
///
/// At zero it is `base`. Otherwise the replay starts from the eligible
/// snapshot, and leads through the commands between the snapshot and the
/// current sequence number: forward where the snapshot is older, backward
/// where it is newer. Without an eligible snapshot it starts from `base` and
/// leads through the commands from 1 on.
pub open spec fn restored<C: SerializableCmd>(s: Stored, base: C::Model) -> Restored<C::Model> {
    let cur = current_seq_no(s);
    if cur == 0 {
        Restored::Model(0, base)
    } else {
        match s.eligible_snapshot() {
            Some((snapshot_id, bytes)) => match C::decoded_model(bytes) {
                None => Restored::Unreadable(snapshot_id as int),
                Some(model) => {
                    let replayed = if cur < snapshot_id {
                        replay_backward::<C>(s.commands, model, snapshot_id as int, cur as int)
                    } else {
                        replay_forward::<C>(s.commands, model, snapshot_id as int, cur as int)
                    };
                    match replayed {
                        Replayed::Model(m) => Restored::Model(cur, m),
                        Replayed::Gap(missing) => Restored::Gap {
                            snapshot_id: Some(snapshot_id),
                            missing,
                        },
                        Replayed::Unreadable(id) => Restored::Unreadable(id),
                    }
                },
            },
            None => match replay_forward::<C>(s.commands, base, 0, cur as int) {
                Replayed::Model(m) => Restored::Model(cur, m),
                Replayed::Gap(missing) => Restored::Gap { snapshot_id: None, missing },
                Replayed::Unreadable(id) => Restored::Unreadable(id),
            },
        }
    }
}

/// Whether `r` reports the end `replayed` of a replay that started from the
/// snapshot `snapshot_id`.
pub open spec fn reports_replay<M>(
    r: Result<M, SqliteUndoStoreError>,
    replayed: Replayed<M>,
    snapshot_id: Option<i64>,
) -> bool {
    match replayed {
        Replayed::Model(m) => r == Ok::<M, SqliteUndoStoreError>(m),
        Replayed::Gap(missing) => r == Err::<M, SqliteUndoStoreError>(
            SqliteUndoStoreError::CannotRestoreModel {
                snapshot_id,
                not_foud_cmd_id: missing as i64,
            },
        ),
        Replayed::Unreadable(id) => r matches Err(
            SqliteUndoStoreError::CannotDeserialize { path: None, seq_no, .. },
        ) && seq_no == id,
    }
}

/// Whether `r` reports the end `restored` of restoring.
pub open spec fn reports_restore<M>(
    r: Result<(i64, M), SqliteUndoStoreError>,
    restored: Restored<M>,
) -> bool {
    match restored {
        Restored::Model(cur, m) => r == Ok::<(i64, M), SqliteUndoStoreError>((cur, m)),
        Restored::Gap { snapshot_id, missing } => r == Err::<(i64, M), SqliteUndoStoreError>(
            SqliteUndoStoreError::CannotRestoreModel {
                snapshot_id,
                not_foud_cmd_id: missing as i64,
            },
        ),
        Restored::Unreadable(id) => r matches Err(
            SqliteUndoStoreError::CannotDeserialize { path: None, seq_no, .. },
        ) && seq_no == id,
    }
}

/// Applies the commands `from + 1 ..= to` to `model`: see [`replay_forward`].
pub fn redo_commands<C: SerializableCmd>(
    tables: &Tables,
    model: C::Model,
    from: i64,
    to: i64,
    snapshot_id: Option<i64>,
) -> (r: Result<C::Model, SqliteUndoStoreError>)
    requires
        tables.wf(),
    ensures
        reports_replay(
            r,
            replay_forward::<C>(tables@.stored.commands, model, from as int, to as int),
            snapshot_id,
        ),
{
    let ghost commands = tables@.stored.commands;
    let mut current = model;
    let mut cmd_id = from;
    while cmd_id < to
        invariant
            tables.wf(),
            commands == tables@.stored.commands,
            from <= cmd_id <= to || (to < from && cmd_id == from),
            replay_forward::<C>(commands, model, from as int, to as int) == replay_forward::<C>(
                commands,
                current,
                cmd_id as int,
                to as int,
            ),
        decreases to - cmd_id,
    {
        cmd_id += 1;
        let serialized = match tables.command(cmd_id) {
            None => {
                return Err(
                    SqliteUndoStoreError::CannotRestoreModel {
                        snapshot_id,
                        not_foud_cmd_id: cmd_id,
                    },
                );
            },
            Some(serialized) => serialized,
        };
        let cmd = match C::decode(serialized) {
            Err(ser_err) => {
                return Err(
                    SqliteUndoStoreError::CannotDeserialize { path: None, seq_no: cmd_id, ser_err },
                );
            },
            Ok(cmd) => cmd,
        };
        cmd.redo(&mut current);
    }
    Ok(current)
}

/// Takes the commands `from`, `from - 1`, .., `to + 1` back from `model`: see
/// [`replay_backward`].
pub fn undo_commands<C: SerializableCmd>(
    tables: &Tables,
    model: C::Model,
    from: i64,
    to: i64,
    snapshot_id: Option<i64>,
) -> (r: Result<C::Model, SqliteUndoStoreError>)
    requires
        tables.wf(),
    ensures
        reports_replay(
            r,
            replay_backward::<C>(tables@.stored.commands, model, from as int, to as int),
            snapshot_id,
        ),
{
    let ghost commands = tables@.stored.commands;
    let mut current = model;
    let mut cmd_id = from;
    while cmd_id > to
        invariant
            tables.wf(),
            commands == tables@.stored.commands,
            to <= cmd_id <= from || (from < to && cmd_id == from),
            replay_backward::<C>(commands, model, from as int, to as int) == replay_backward::<C>(
                commands,
                current,
                cmd_id as int,
                to as int,
            ),
        decreases cmd_id - to,
    {
        let serialized = match tables.command(cmd_id) {
            None => {
                return Err(
                    SqliteUndoStoreError::CannotRestoreModel {
                        snapshot_id,
                        not_foud_cmd_id: cmd_id,
                    },
                );
            },
            Some(serialized) => serialized,
        };
        let cmd = match C::decode(serialized) {
            Err(ser_err) => {
                return Err(
                    SqliteUndoStoreError::CannotDeserialize { path: None, seq_no: cmd_id, ser_err },
                );
            },
            Ok(cmd) => cmd,
        };
        cmd.undo(&mut current);
        cmd_id -= 1;
    }
    Ok(current)
}

/// Rebuilds the model at the current sequence number, which is set to zero
/// where the file holds none yet: see [`restored`]. `base` is the model
/// before the first command.
pub fn restore_model<C: SerializableCmd>(tables: &mut Tables, base: C::Model) -> (r: Result<
    (i64, C::Model),
    SqliteUndoStoreError,
>)
    requires
        old(tables).wf(),
    ensures
        final(tables).wf(),
        final(tables)@ == (match old(tables)@.stored.cur_cmd_seq_no {
            Some(_) => old(tables)@,
            None => old(tables)@.executed(Write::InsertSeqNo(0)),
        }),
        reports_restore(r, restored::<C>(old(tables)@.stored, base)),
{
    let cur_seq_no = tables.get_cur_seq_no();
    if cur_seq_no == 0 {
        return Ok((0, base));
    }
    match tables.load_last_snapshot() {
        Some((last_snapshot_id, serialized)) => {
            let model = match C::decode_model(serialized) {
                Err(ser_err) => {
                    return Err(
                        SqliteUndoStoreError::CannotDeserialize {
                            path: None,
                            seq_no: last_snapshot_id,
                            ser_err,
                        },
                    );
                },
                Ok(model) => model,
            };
            // Restore with snapshot.
            let model = if cur_seq_no < last_snapshot_id {
                undo_commands::<C>(
                    tables,
                    model,
                    last_snapshot_id,
                    cur_seq_no,
                    Some(last_snapshot_id),
                )?
            } else {
                redo_commands::<C>(
                    tables,
                    model,
                    last_snapshot_id,
                    cur_seq_no,
                    Some(last_snapshot_id),
                )?
            };
            Ok((cur_seq_no, model))
        },
        None => {
            // Restore without snapshot.
            let model = redo_commands::<C>(tables, base, 0, cur_seq_no, None)?;
            Ok((cur_seq_no, model))
        },
    }
}

} // verus!
