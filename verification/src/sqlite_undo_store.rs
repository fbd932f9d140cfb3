//! The caller's side of the durable store.
//!
//! [`SqliteUndoStore`] holds the model that the caller sees and the
//! bookkeeping of the [`PersisterClient`]. It does no I/O: an operation that
//! needs the worker returns the request to send, and the worker's answers are
//! handed in as they arrive. Whoever owns the store runs the worker (see
//! [`crate::persister_server`]) and carries the messages.

use crate::cmd::{Cmd, SerializableCmd};
use crate::options::{Options, SnapshotHook, MAX_COMMAND_ID};
use crate::persister_client::{folded, PersisterClient};
use crate::protocol::{PersistCmd, PersistResp};
use crate::sqlite_undo_store_error::SqliteUndoStoreError;
use std::marker::PhantomData;
use vstd::prelude::*;

verus! {

#[verifier::reject_recursive_types(M)]
pub struct SqliteUndoStore<C, M, E> where C: SerializableCmd<Model = M> {
    phantom: PhantomData<C>,
    phantome: PhantomData<E>,
    model: M,
    persister_client: PersisterClient,
    base_dir: String,
}

/// What a store holds.
pub struct StoreState<M> {
    pub model: M,
    pub client: PersisterClient,
    pub base_dir: String,
}

/// What a decoded command does to a store that has been told by the worker to
/// apply it (`forward`) or to take it back.
pub open spec fn stepped<C: SerializableCmd>(
    pre: StoreState<C::Model>,
    forward: bool,
    resp: Result<(i64, Vec<u8>), SqliteUndoStoreError>,
    post: StoreState<C::Model>,
    r: Result<(), SqliteUndoStoreError>,
) -> bool {
    match resp {
        Err(err) => r == Err::<(), SqliteUndoStoreError>(err) && post == pre,
        Ok((seq_no, bytes)) => {
            let at_end = if forward {
                seq_no == i64::MAX
            } else {
                seq_no == i64::MIN
            };
            if seq_no != pre.client.last_seq_no || at_end {
                r == Err::<(), SqliteUndoStoreError>(SqliteUndoStoreError::CmdSequenceError)
                    && post == pre
            } else {
                let moved = PersisterClient {
                    last_seq_no: if forward {
                        (seq_no + 1) as i64
                    } else {
                        (seq_no - 1) as i64
                    },
                    ..pre.client
                };
                match C::decoded(bytes@) {
                    None => {
                        &&& r matches Err(
                            SqliteUndoStoreError::CannotDeserialize {
                                path: Some(p),
                                seq_no: s,
                                ..
                            },
                        )
                        &&& p == pre.base_dir
                        &&& s == seq_no
                        &&& post == (StoreState { client: moved, ..pre })
                    },
                    Some(cmd) => {
                        &&& r is Ok
                        &&& post == (StoreState {
                            client: moved,
                            model: if forward {
                                cmd.redone(pre.model)
                            } else {
                                cmd.undone(pre.model)
                            },
                            ..pre
                        })
                    },
                }
            }
        },
    }
}

/// What submitting `cmd` does to the bookkeeping of a store, and what is to
/// be sent.
pub open spec fn submitted<C: SerializableCmd>(
    pre: StoreState<C::Model>,
    cmd: C,
    post: StoreState<C::Model>,
    r: Result<PersistCmd, SqliteUndoStoreError>,
) -> bool {
    &&& post.model == pre.model
    &&& post.base_dir == pre.base_dir
    &&& match cmd.encoded() {
        None => (r matches Err(SqliteUndoStoreError::SerializeError(_))) && post.client
            == pre.client,
        Some(bytes) => if pre.client.last_seq_no >= MAX_COMMAND_ID - 1 {
            r == Err::<PersistCmd, SqliteUndoStoreError>(
                SqliteUndoStoreError::NeedCompaction(pre.base_dir),
            ) && post.client == pre.client
        } else {
            &&& r matches Ok(PersistCmd::AddCmd { seq_no, ser_cmd })
            &&& seq_no == pre.client.last_seq_no
            &&& ser_cmd@ == bytes
            &&& post.client == (PersisterClient {
                last_seq_no: (pre.client.last_seq_no + 1) as i64,
                min_seq_no: Some(
                    PersisterClient::min_after_add(
                        pre.client.min_seq_no,
                        pre.client.last_seq_no + 1,
                        pre.client.undo_limit as int,
                    ) as i64,
                ),
                ..pre.client
            })
        },
    }
}

impl<C, M, E> View for SqliteUndoStore<C, M, E> where C: SerializableCmd<Model = M> {
    type V = StoreState<M>;

    closed spec fn view(&self) -> StoreState<M> {
        StoreState {
            model: self.model,
            client: self.persister_client,
            base_dir: self.base_dir,
        }
    }
}

impl<C, M, E> SqliteUndoStore<C, M, E> where C: SerializableCmd<Model = M> {
    pub fn dir(&self) -> (r: &String)
        ensures
            *r == self@.base_dir,
    {
        &self.base_dir
    }

    /// The store for the directory `dir`, from the worker's answer to `Open`.
    ///
    /// On `OpenOk` the model is decoded and handed to the hook of the options,
    /// if there is one; the bookkeeping starts from the sequence number and
    /// the bounds of the answer, with nothing submitted and so with the store
    /// saved. A failure that the worker reports is returned; any other answer
    /// is a sequence error.
    pub fn open(dir: String, resp: PersistResp, options: Options<M>) -> (r: Result<
        Self,
        SqliteUndoStoreError,
    >)
        requires
            match options.on_snapshot_restored {
                Some(hook) => forall|model: M| hook.accepts(model),
                None => true,
            },
        ensures
            match resp {
                PersistResp::OpenOk { serialized_model, seq_no, min_max_seq_no } => {
                    match C::decoded_model(serialized_model@) {
                        None => {
                            &&& r matches Err(
                                SqliteUndoStoreError::CannotDeserialize {
                                    path: Some(p),
                                    seq_no: s,
                                    ..
                                },
                            )
                            &&& p == dir
                            &&& s == seq_no
                        },
                        Some(model) => {
                            &&& r matches Ok(store)
                            &&& store@.base_dir == dir
                            &&& store@.client == (PersisterClient {
                                last_seq_no: seq_no,
                                last_processed_seq_no: Some(seq_no),
                                min_seq_no: match min_max_seq_no {
                                    Some((min, _)) => Some(min),
                                    None => None,
                                },
                                max_seq_no: match min_max_seq_no {
                                    Some((_, max)) => Some(max),
                                    None => None,
                                },
                                undo_limit: options.undo_limit,
                            })
                            &&& match options.on_snapshot_restored {
                                Some(hook) => hook.restores(model, store@.model),
                                None => store@.model == model,
                            }
                        },
                    }
                },
                PersistResp::OpenErr(err) => r matches Err(e) && e == err,
                PersistResp::AddCmdErr(err) => r matches Err(e) && e == err,
                _ => r matches Err(SqliteUndoStoreError::CmdSequenceError),
            },
    {
        let (persister_client, serialized_model) = PersisterClient::open(
            resp,
            options.undo_limit,
        )?;
        let model = match C::decode_model(&serialized_model) {
            Err(ser_err) => {
                return Err(
                    SqliteUndoStoreError::CannotDeserialize {
                        path: Some(dir),
                        seq_no: persister_client.last_seq_no,
                        ser_err,
                    },
                );
            },
            Ok(model) => model,
        };
        let model = if let Some(f) = options.on_snapshot_restored {
            f.restore(model)
        } else {
            model
        };
        Ok(
            SqliteUndoStore {
                base_dir: dir,
                model,
                phantom: PhantomData,
                phantome: PhantomData,
                persister_client,
            },
        )
    }

    fn _add_cmd(&mut self, cmd: C) -> (r: Result<PersistCmd, SqliteUndoStoreError>)
        ensures
            submitted::<C>(old(self)@, cmd, final(self)@, r),
    {
        let serialized: Vec<u8> = match cmd.encode() {
            Err(e) => {
                return Err(SqliteUndoStoreError::SerializeError(e));
            },
            Ok(serialized) => serialized,
        };
        match self.persister_client.add_command(serialized) {
            None => Err(SqliteUndoStoreError::NeedCompaction(self.base_dir.clone())),
            Some(msg) => Ok(msg),
        }
    }

    /// Whether the worker has acknowledged every command that has been
    /// submitted: true of a store that has just been opened, false from a
    /// command's submission until its acknowledgement has been taken in.
    pub fn saved(&self) -> (r: bool)
        ensures
            r == self@.client.spec_saved(),
    {
        self.persister_client.saved()
    }

    /// Takes in an answer that arrives while no undo or redo is awaited: see
    /// [`folded`].
    pub fn process_resp(&mut self, resp: PersistResp) -> (r: Result<(), SqliteUndoStoreError>)
        ensures
            final(self)@ == (StoreState { client: folded(old(self)@.client, resp).0, ..old(self)@ }),
            r == folded(old(self)@.client, resp).1,
    {
        self.persister_client.process_resp(resp)
    }

    fn _undo(&mut self, resp: Result<(i64, Vec<u8>), SqliteUndoStoreError>) -> (r: Result<
        (),
        SqliteUndoStoreError,
    >)
        ensures
            stepped::<C>(old(self)@, false, resp, final(self)@, r),
    {
        let (seq_no, ser_cmd) = self.persister_client.undo(resp)?;
        let cmd = match C::decode(&ser_cmd) {
            Err(ser_err) => {
                return Err(
                    SqliteUndoStoreError::CannotDeserialize {
                        path: Some(self.base_dir.clone()),
                        seq_no,
                        ser_err,
                    },
                );
            },
            Ok(cmd) => cmd,
        };
        cmd.undo(&mut self.model);
        Ok(())
    }

    fn _redo(&mut self, resp: Result<(i64, Vec<u8>), SqliteUndoStoreError>) -> (r: Result<
        (),
        SqliteUndoStoreError,
    >)
        ensures
            stepped::<C>(old(self)@, true, resp, final(self)@, r),
    {
        let (seq_no, ser_cmd) = self.persister_client.redo(resp)?;
        let cmd = match C::decode(&ser_cmd) {
            Err(ser_err) => {
                return Err(
                    SqliteUndoStoreError::CannotDeserialize {
                        path: Some(self.base_dir.clone()),
                        seq_no,
                        ser_err,
                    },
                );
            },
            Ok(cmd) => cmd,
        };
        cmd.redo(&mut self.model);
        Ok(())
    }

    pub fn model(&self) -> (r: &M)
        ensures
            *r == self@.model,
    {
        &self.model
    }

    /// Lets `f` change the model and submits the command that `f` returns,
    /// without applying it again. The error of `f` is returned as it is, with
    /// the model as `f` left it; else the result is the request to send, or
    /// why the command could not be submitted (see [`submitted`]).
    pub fn mutate<F: FnOnce(&mut M) -> Result<C, E>>(&mut self, f: F) -> (r: Result<
        Result<PersistCmd, SqliteUndoStoreError>,
        E,
    >)
        requires
            forall|m: &mut M| *m == old(self)@.model ==> call_requires(f, (m,)),
        ensures
            exists|m: &mut M, out: Result<C, E>|
                {
                    &&& *m == old(self)@.model
                    &&& call_ensures(f, (m,), out)
                    &&& match out {
                        Ok(cmd) => r matches Ok(sent) && submitted::<C>(
                            StoreState { model: *final(m), ..old(self)@ },
                            cmd,
                            final(self)@,
                            sent,
                        ),
                        Err(err) => r == Err::<Result<PersistCmd, SqliteUndoStoreError>, E>(err)
                            && final(self)@ == (StoreState { model: *final(m), ..old(self)@ }),
                    }
                },
    {
        match f(&mut self.model) {
            Ok(cmd) => Ok(self._add_cmd(cmd)),
            Err(err) => Err(err),
        }
    }

    /// Applies `cmd` to the model and submits it: the result is the request
    /// to send, or why the command could not be submitted (see
    /// [`submitted`]). The model has the command applied whether it could be submitted or not.
    pub fn add_cmd(&mut self, cmd: C) -> (r: Result<PersistCmd, SqliteUndoStoreError>)
        ensures
            submitted::<C>(
                StoreState { model: cmd.redone(old(self)@.model), ..old(self)@ },
                cmd,
                final(self)@,
                r,
            ),
    {
        cmd.redo(&mut self.model);
        self._add_cmd(cmd)
    }

    /// The request to send for one step back; `None` where there is nothing
    /// to undo.
    pub fn undo(&self) -> (r: Option<PersistCmd>)
        ensures
            r == (if self@.client.spec_can_undo() {
                Some(PersistCmd::Undo)
            } else {
                None
            }),
    {
        if self.can_undo() {
            Some(PersistCmd::Undo)
        } else {
            None
        }
    }

    /// Takes in an answer while the answer to `Undo` is awaited. `None` means
    /// to wait on: the answer acknowledged a command. Otherwise the wait is
    /// over: the command of the answer has been taken back from the model,
    /// or the step has failed (see [`stepped`]).
    pub fn wait_undo_resp(&mut self, resp: PersistResp) -> (r: Option<
        Result<(), SqliteUndoStoreError>,
    >)
        ensures
            match resp {
                PersistResp::AddCmdOk { .. } => r is None && final(self)@ == (StoreState {
                    client: folded(old(self)@.client, resp).0,
                    ..old(self)@
                }),
                PersistResp::UndoOk { seq_no, serialized_command } => r matches Some(done)
                    && stepped::<C>(
                    old(self)@,
                    false,
                    Ok((seq_no, serialized_command)),
                    final(self)@,
                    done,
                ),
                PersistResp::UndoErr(err) => r == Some(Err::<(), SqliteUndoStoreError>(err))
                    && final(self)@ == old(self)@,
                PersistResp::AddCmdErr(err) => r == Some(Err::<(), SqliteUndoStoreError>(err))
                    && final(self)@ == old(self)@,
                _ => r == Some(
                    Err::<(), SqliteUndoStoreError>(SqliteUndoStoreError::CmdSequenceError),
                ) && final(self)@ == old(self)@,
            },
    {
        match self.persister_client.wait_undo_resp(resp) {
            None => None,
            Some(resp) => Some(self._undo(resp)),
        }
    }

    pub fn can_undo(&self) -> (r: bool)
        ensures
            r == self@.client.spec_can_undo(),
    {
        self.persister_client.can_undo()
    }

    pub fn can_redo(&self) -> (r: bool)
        ensures
            r == self@.client.spec_can_redo(),
    {
        self.persister_client.can_redo()
    }

    /// The request to send for one step forward; `None` where there is
    /// nothing to redo.
    pub fn redo(&self) -> (r: Option<PersistCmd>)
        ensures
            r == (if self@.client.spec_can_redo() {
                Some(PersistCmd::Redo)
            } else {
                None
            }),
    {
        if self.can_redo() {
            Some(PersistCmd::Redo)
        } else {
            None
        }
    }

    /// Takes in an answer while the answer to `Redo` is awaited, as
    /// [`Self::wait_undo_resp`] does for `Undo`.
    pub fn wait_redo_resp(&mut self, resp: PersistResp) -> (r: Option<
        Result<(), SqliteUndoStoreError>,
    >)
        ensures
            match resp {
                PersistResp::AddCmdOk { .. } => r is None && final(self)@ == (StoreState {
                    client: folded(old(self)@.client, resp).0,
                    ..old(self)@
                }),
                PersistResp::RedoOk { seq_no, serialized_command } => r matches Some(done)
                    && stepped::<C>(
                    old(self)@,
                    true,
                    Ok((seq_no, serialized_command)),
                    final(self)@,
                    done,
                ),
                PersistResp::RedoErr(err) => r == Some(Err::<(), SqliteUndoStoreError>(err))
                    && final(self)@ == old(self)@,
                PersistResp::AddCmdErr(err) => r == Some(Err::<(), SqliteUndoStoreError>(err))
                    && final(self)@ == old(self)@,
                _ => r == Some(
                    Err::<(), SqliteUndoStoreError>(SqliteUndoStoreError::CmdSequenceError),
                ) && final(self)@ == old(self)@,
            },
    {
        match self.persister_client.wait_redo_resp(resp) {
            None => None,
            Some(resp) => Some(self._redo(resp)),
        }
    }

    /// Mutate a part of model that is out of scope to manage undo/redo operations.
    pub fn irreversible_mutate<R, F: FnOnce(&mut M) -> R>(&mut self, f: F) -> (r: R)
        requires
            forall|m: &mut M| *m == old(self)@.model ==> call_requires(f, (m,)),
        ensures
            exists|m: &mut M|
                {
                    &&& *m == old(self)@.model
                    &&& call_ensures(f, (m,), r)
                    &&& final(self)@ == (StoreState { model: *final(m), ..old(self)@ })
                },
    {
        f(&mut self.model)
    }

    /// The request that closes the store.
    pub fn close(&self) -> (r: PersistCmd)
        ensures
            r == PersistCmd::Close,
    {
        PersistCmd::Close
    }

    /// Takes in an answer after `Close` has been sent. True where the worker
    /// has closed and no further answer will come.
    pub fn wait_close_resp(&self, resp: &PersistResp) -> (closed: bool)
        ensures
            closed == (resp is CloseOk || resp is CloseErr),
    {
        self.persister_client.wait_close_resp(resp)
    }
}

} // verus!
