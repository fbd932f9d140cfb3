//! The caller's bookkeeping for a durable store.
//!
//! The client knows the sequence number of the command that was submitted
//! last, the one that the worker has acknowledged last, and the bounds of the
//! retained commands as far as it has heard of them. It decides what each
//! answer of the worker means; sending and receiving is left to its owner.

use crate::options::MAX_COMMAND_ID;
use crate::protocol::{PersistCmd, PersistResp};
use crate::sqlite_undo_store_error::SqliteUndoStoreError;
use vstd::prelude::*;

verus! {

#[derive(Debug, Clone, PartialEq, Eq)]
pub struct PersisterClient {
    /// The current position as the caller knows it.
    pub last_seq_no: i64,
    /// The sequence number that the worker has acknowledged last: that of the
    /// store as it was opened, then that of the last command that the worker
    /// has stored.
    pub last_processed_seq_no: Option<i64>,
    pub min_seq_no: Option<i64>,
    pub max_seq_no: Option<i64>,
    pub undo_limit: usize,
}

/// What an answer means that arrives while no undo or redo is awaited.
pub open spec fn folded(client: PersisterClient, resp: PersistResp) -> (
    PersisterClient,
    Result<(), SqliteUndoStoreError>,
) {
    match resp {
        PersistResp::AddCmdOk { seq_no } => (
            PersisterClient {
                last_processed_seq_no: Some(seq_no),
                max_seq_no: Some(seq_no),
                ..client
            },
            Ok(()),
        ),
        PersistResp::AddCmdErr(err) => (client, Err(err)),
        _ => (client, Err(SqliteUndoStoreError::CmdSequenceError)),
    }
}

impl PersisterClient {
    /// The least sequence number that is retained once the command
    /// `last_seq_no` has been submitted.
    pub open spec fn min_after_add(min_seq_no: Option<i64>, last_seq_no: int, undo_limit: int) -> int {
        match min_seq_no {
            Some(min) => if min + undo_limit <= last_seq_no {
                last_seq_no - undo_limit + 1
            } else {
                min as int
            },
            None => last_seq_no,
        }
    }

    /// The bookkeeping after the worker's answer to `Open`, and the encoded
    /// model that the worker has restored. Nothing has been submitted yet, so
    /// the store counts as saved.
    pub fn open(resp: PersistResp, undo_limit: usize) -> (r: Result<
        (Self, Vec<u8>),
        SqliteUndoStoreError,
    >)
        ensures
            match resp {
                PersistResp::OpenOk { serialized_model, seq_no, min_max_seq_no } => r == Ok::<
                    (Self, Vec<u8>),
                    SqliteUndoStoreError,
                >(
                    (
                        PersisterClient {
                            last_seq_no: seq_no,
                            last_processed_seq_no: Some(seq_no),
                            min_seq_no: match min_max_seq_no {
                                Some((min, _)) => Some(min),
                                None => None,
                            },
                            max_seq_no: match min_max_seq_no {
                                Some((_, max)) => Some(max),
                                None => None,
                            },
                            undo_limit,
                        },
                        serialized_model,
                    ),
                ),
                PersistResp::OpenErr(err) => r == Err::<(Self, Vec<u8>), SqliteUndoStoreError>(err),
                PersistResp::AddCmdErr(err) => r == Err::<(Self, Vec<u8>), SqliteUndoStoreError>(
                    err,
                ),
                _ => r == Err::<(Self, Vec<u8>), SqliteUndoStoreError>(
                    SqliteUndoStoreError::CmdSequenceError,
                ),
            },
    {
        let (serialized_model, seq_no, min_max_seq_no) = match resp {
            PersistResp::OpenOk { serialized_model, seq_no, min_max_seq_no } => (
                serialized_model,
                seq_no,
                min_max_seq_no,
            ),
            PersistResp::OpenErr(report) => {
                return Err(report);
            },
            PersistResp::AddCmdErr(err) => {
                return Err(err);
            },
            _ => {
                return Err(SqliteUndoStoreError::CmdSequenceError);
            },
        };
        let (min_seq_no, max_seq_no) = if let Some((min, max)) = min_max_seq_no {
            (Some(min), Some(max))
        } else {
            (None, None)
        };
        Ok(
            (
                Self {
                    last_seq_no: seq_no,
                    min_seq_no,
                    max_seq_no,
                    last_processed_seq_no: Some(seq_no),
                    undo_limit,
                },
                serialized_model,
            ),
        )
    }

    /// What follows the wait for the answer to `Undo`: the answer must name
    /// the current position, which then moves one back.
    pub fn undo(&mut self, resp: Result<(i64, Vec<u8>), SqliteUndoStoreError>) -> (r: Result<
        (i64, Vec<u8>),
        SqliteUndoStoreError,
    >)
        ensures
            match resp {
                Ok((seq_no, _)) => if seq_no == old(self).last_seq_no && seq_no > i64::MIN {
                    r == resp && *final(self) == (PersisterClient {
                        last_seq_no: (seq_no - 1) as i64,
                        ..*old(self)
                    })
                } else {
                    r == Err::<(i64, Vec<u8>), SqliteUndoStoreError>(
                        SqliteUndoStoreError::CmdSequenceError,
                    ) && *final(self) == *old(self)
                },
                Err(_) => r == resp && *final(self) == *old(self),
            },
    {
        match resp {
            Ok((seq_no, ser_cmd)) => {
                if seq_no != self.last_seq_no || seq_no == i64::MIN {
                    return Err(SqliteUndoStoreError::CmdSequenceError);
                }
                self.last_seq_no -= 1;
                Ok((seq_no, ser_cmd))
            },
            Err(err) => Err(err),
        }
    }

    /// What follows the wait for the answer to `Redo`: the answer must name
    /// the current position, which then moves one forward.
    pub fn redo(&mut self, resp: Result<(i64, Vec<u8>), SqliteUndoStoreError>) -> (r: Result<
        (i64, Vec<u8>),
        SqliteUndoStoreError,
    >)
        ensures
            match resp {
                Ok((seq_no, _)) => if seq_no == old(self).last_seq_no && seq_no < i64::MAX {
                    r == resp && *final(self) == (PersisterClient {
                        last_seq_no: (seq_no + 1) as i64,
                        ..*old(self)
                    })
                } else {
                    r == Err::<(i64, Vec<u8>), SqliteUndoStoreError>(
                        SqliteUndoStoreError::CmdSequenceError,
                    ) && *final(self) == *old(self)
                },
                Err(_) => r == resp && *final(self) == *old(self),
            },
    {
        match resp {
            Ok((seq_no, ser_cmd)) => {
                if seq_no != self.last_seq_no || seq_no == i64::MAX {
                    return Err(SqliteUndoStoreError::CmdSequenceError);
                }
                self.last_seq_no += 1;
                Ok((seq_no, ser_cmd))
            },
            Err(err) => Err(err),
        }
    }

    /// Submits a command: returns the request to send and counts the command
    /// as the current one. `None`, with nothing changed, where its sequence
    /// number would reach [`MAX_COMMAND_ID`].
    pub fn add_command(&mut self, ser_cmd: Vec<u8>) -> (r: Option<PersistCmd>)
        ensures
            old(self).last_seq_no >= MAX_COMMAND_ID - 1 ==> r is None && *final(self) == *old(self),
            old(self).last_seq_no < MAX_COMMAND_ID - 1 ==> r == Some(
                PersistCmd::AddCmd { seq_no: old(self).last_seq_no, ser_cmd },
            ) && *final(self) == (PersisterClient {
                last_seq_no: (old(self).last_seq_no + 1) as i64,
                min_seq_no: Some(
                    Self::min_after_add(
                        old(self).min_seq_no,
                        old(self).last_seq_no + 1,
                        old(self).undo_limit as int,
                    ) as i64,
                ),
                ..*old(self)
            }),
    {
        if self.last_seq_no >= MAX_COMMAND_ID - 1 {
            return None;
        }
        let cmd = PersistCmd::AddCmd { seq_no: self.last_seq_no, ser_cmd };
        self.last_seq_no += 1;
        match self.min_seq_no {
            Some(min_seq_no) => {
                let last = self.last_seq_no as i128;
                let limit = self.undo_limit as i128;
                if min_seq_no as i128 + limit <= last {
                    self.min_seq_no = Some((last - limit + 1) as i64);
                }
            },
            None => self.min_seq_no = Some(self.last_seq_no),
        }
        Some(cmd)
    }

    /// Takes in an answer that arrives while no undo or redo is awaited: see
    /// [`folded`].
    pub fn process_resp(&mut self, resp: PersistResp) -> (r: Result<(), SqliteUndoStoreError>)
        ensures
            (*final(self), r) == folded(*old(self), resp),
    {
        match resp {
            PersistResp::AddCmdOk { seq_no } => {
                self.last_processed_seq_no = Some(seq_no);
                self.max_seq_no = Some(seq_no);
                Ok(())
            },
            PersistResp::AddCmdErr(err) => Err(err),
            _ => Err(SqliteUndoStoreError::CmdSequenceError),
        }
    }

    /// Takes in an answer while the answer to `Undo` is awaited. `None` means
    /// to wait on: the answer acknowledged a command. Otherwise the wait is
    /// over, with the position and the encoded command to take back, or with
    /// the failure.
    pub fn wait_undo_resp(&mut self, resp: PersistResp) -> (r: Option<
        Result<(i64, Vec<u8>), SqliteUndoStoreError>,
    >)
        ensures
            match resp {
                PersistResp::AddCmdOk { .. } => r is None && *final(self) == folded(
                    *old(self),
                    resp,
                ).0,
                PersistResp::UndoOk { seq_no, serialized_command } => r == Some(
                    Ok::<(i64, Vec<u8>), SqliteUndoStoreError>((seq_no, serialized_command)),
                ) && *final(self) == *old(self),
                PersistResp::UndoErr(err) => r == Some(
                    Err::<(i64, Vec<u8>), SqliteUndoStoreError>(err),
                ) && *final(self) == *old(self),
                PersistResp::AddCmdErr(err) => r == Some(
                    Err::<(i64, Vec<u8>), SqliteUndoStoreError>(err),
                ) && *final(self) == *old(self),
                _ => r == Some(
                    Err::<(i64, Vec<u8>), SqliteUndoStoreError>(
                        SqliteUndoStoreError::CmdSequenceError,
                    ),
                ) && *final(self) == *old(self),
            },
    {
        match resp {
            PersistResp::AddCmdOk { seq_no } => {
                self.last_processed_seq_no = Some(seq_no);
                self.max_seq_no = Some(seq_no);
                None
            },
            PersistResp::AddCmdErr(err) => Some(Err(err)),
            PersistResp::UndoOk { seq_no, serialized_command } => Some(
                Ok((seq_no, serialized_command)),
            ),
            PersistResp::UndoErr(err) => Some(Err(err)),
            _ => Some(Err(SqliteUndoStoreError::CmdSequenceError)),
        }
    }

    /// Takes in an answer while the answer to `Redo` is awaited, as
    /// [`Self::wait_undo_resp`] does for `Undo`.
    pub fn wait_redo_resp(&mut self, resp: PersistResp) -> (r: Option<
        Result<(i64, Vec<u8>), SqliteUndoStoreError>,
    >)
        ensures
            match resp {
                PersistResp::AddCmdOk { .. } => r is None && *final(self) == folded(
                    *old(self),
                    resp,
                ).0,
                PersistResp::RedoOk { seq_no, serialized_command } => r == Some(
                    Ok::<(i64, Vec<u8>), SqliteUndoStoreError>((seq_no, serialized_command)),
                ) && *final(self) == *old(self),
                PersistResp::RedoErr(err) => r == Some(
                    Err::<(i64, Vec<u8>), SqliteUndoStoreError>(err),
                ) && *final(self) == *old(self),
                PersistResp::AddCmdErr(err) => r == Some(
                    Err::<(i64, Vec<u8>), SqliteUndoStoreError>(err),
                ) && *final(self) == *old(self),
                _ => r == Some(
                    Err::<(i64, Vec<u8>), SqliteUndoStoreError>(
                        SqliteUndoStoreError::CmdSequenceError,
                    ),
                ) && *final(self) == *old(self),
            },
    {
        match resp {
            PersistResp::AddCmdOk { seq_no } => {
                self.last_processed_seq_no = Some(seq_no);
                self.max_seq_no = Some(seq_no);
                None
            },
            PersistResp::AddCmdErr(err) => Some(Err(err)),
            PersistResp::RedoOk { seq_no, serialized_command } => Some(
                Ok((seq_no, serialized_command)),
            ),
            PersistResp::RedoErr(err) => Some(Err(err)),
            _ => Some(Err(SqliteUndoStoreError::CmdSequenceError)),
        }
    }

    /// Takes in an answer after `Close` has been sent. True where the worker
    /// has closed and no further answer will come.
    pub fn wait_close_resp(&self, resp: &PersistResp) -> (closed: bool)
        ensures
            closed == (resp is CloseOk || resp is CloseErr),
    {
        match resp {
            PersistResp::CloseOk => true,
            PersistResp::CloseErr(_) => true,
            _ => false,
        }
    }

    pub open spec fn spec_can_undo(&self) -> bool {
        match self.min_seq_no {
            Some(min_seq_no) => min_seq_no <= self.last_seq_no,
            None => false,
        }
    }

    pub open spec fn spec_can_redo(&self) -> bool {
        match self.max_seq_no {
            Some(max_seq_no) => self.last_seq_no < max_seq_no,
            None => false,
        }
    }

    /// Every command that has been submitted is acknowledged: the sequence
    /// number that the worker has acknowledged last is the current one.
    pub open spec fn spec_saved(&self) -> bool {
        self.last_processed_seq_no == Some(self.last_seq_no)
    }

    #[verifier::when_used_as_spec(spec_can_undo)]
    pub fn can_undo(&self) -> (r: bool)
        ensures
            r == self.spec_can_undo(),
    {
        if let Some(min_seq_no) = self.min_seq_no {
            min_seq_no <= self.last_seq_no
        } else {
            false
        }
    }

    #[verifier::when_used_as_spec(spec_can_redo)]
    pub fn can_redo(&self) -> (r: bool)
        ensures
            r == self.spec_can_redo(),
    {
        if let Some(max_seq_no) = self.max_seq_no {
            self.last_seq_no < max_seq_no
        } else {
            false
        }
    }

    /// Whether the worker has acknowledged every command that has been
    /// submitted.
    #[verifier::when_used_as_spec(spec_saved)]
    pub fn saved(&self) -> (r: bool)
        ensures
            r == self.spec_saved(),
    {
        if let Some(proceesed_seq_no) = self.last_processed_seq_no {
            proceesed_seq_no == self.last_seq_no
        } else {
            false
        }
    }
}

/// The bookkeeping after `k` commands have been submitted, one after another.
pub open spec fn after_submissions(client: PersisterClient, k: nat) -> PersisterClient
    decreases k,
{
    if k == 0 {
        client
    } else {
        let before = after_submissions(client, (k - 1) as nat);
        PersisterClient {
            last_seq_no: (before.last_seq_no + 1) as i64,
            min_seq_no: Some(
                PersisterClient::min_after_add(
                    before.min_seq_no,
                    before.last_seq_no + 1,
                    before.undo_limit as int,
                ) as i64,
            ),
            ..before
        }
    }
}

/// The bookkeeping after the acknowledgements of the first `a` commands that
/// were submitted above the position `from` have been taken in, in their
/// order.
pub open spec fn after_acknowledgements(client: PersisterClient, from: i64, a: nat) -> PersisterClient
    decreases a,
{
    if a == 0 {
        client
    } else {
        folded(
            after_acknowledgements(client, from, (a - 1) as nat),
            PersistResp::AddCmdOk { seq_no: (from + a) as i64 },
        ).0
    }
}

/// Saved means that every submitted command is acknowledged: where a store
/// has been opened, `k` commands have been submitted and `a` of them have
/// been acknowledged, the store is saved if and only if `a` is `k`. So a store
/// that has just been opened is saved.
pub proof fn lemma_saved_iff_all_acknowledged(opened: PersisterClient, k: nat, a: nat)
    requires
        opened.last_processed_seq_no == Some(opened.last_seq_no),
        a <= k,
        opened.last_seq_no + k < MAX_COMMAND_ID,
    ensures
        after_acknowledgements(
            after_submissions(opened, k),
            opened.last_seq_no,
            a,
        ).spec_saved() <==> a == k,
{
    lemma_after_submissions(opened, k);
    lemma_after_acknowledgements(after_submissions(opened, k), opened.last_seq_no, a);
}

proof fn lemma_after_submissions(client: PersisterClient, k: nat)
    requires
        client.last_seq_no + k < MAX_COMMAND_ID,
    ensures
        after_submissions(client, k).last_seq_no == client.last_seq_no + k,
        after_submissions(client, k).last_processed_seq_no == client.last_processed_seq_no,
    decreases k,
{
    if k > 0 {
        lemma_after_submissions(client, (k - 1) as nat);
    }
}

proof fn lemma_after_acknowledgements(client: PersisterClient, from: i64, a: nat)
    requires
        from + a < MAX_COMMAND_ID,
    ensures
        after_acknowledgements(client, from, a).last_seq_no == client.last_seq_no,
        after_acknowledgements(client, from, a).last_processed_seq_no == (if a == 0 {
            client.last_processed_seq_no
        } else {
            Some((from + a) as i64)
        }),
    decreases a,
{
    if a > 0 {
        lemma_after_acknowledgements(client, from, (a - 1) as nat);
    }
}

} // verus!
