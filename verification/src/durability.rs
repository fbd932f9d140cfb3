//! What holds of the tables of a durable store between operations, and what
//! follows from it: that restoring reproduces the model.

use crate::cmd::{Cmd, SerializableCmd};
use crate::persister_client::{folded, PersisterClient};
use crate::persister_server::{write_path, PersisterServer, PersisterServerState, ServerAction};
use crate::protocol::{PersistCmd, PersistResp};
use crate::restore::{replay_backward, replay_forward, restored, Replayed, Restored};
use crate::sqlite_undo_store::{stepped, submitted, StoreState};
use crate::sqlite_undo_store_error::SqliteUndoStoreError;
use crate::tables::{
    ascending, below, contiguous, latest_within, lemma_below_is_prefix, lemma_lookup_at, lookup,
    newest, Stored, Tables, TablesView, Write,
};
use vstd::prelude::*;

verus! {

/// The position before the oldest retained command; the current position
/// where no command is retained.
pub open spec fn base_position(s: Stored, cur: i64) -> int {
    if s.commands.len() == 0 {
        cur as int
    } else {
        s.commands[0].0 - 1
    }
}

/// The tables and the worker's model fit together.
///
/// `states` are the models at the positions from [`base_position`] up to the
/// newest command, and `cur` is the current position; the model of the worker
/// is the one at `cur`. The ids of the commands are consecutive. Each command
/// can be decoded, leads from the model before it to the model after it, and
/// back. Where the history begins at position zero, the first model is
/// `base`. There is at most one snapshot; it lies among the positions and
/// holds the model at its position. Without a snapshot the history begins at
/// position zero.
pub open spec fn consistent<C: SerializableCmd>(
    s: Stored,
    base: C::Model,
    cur: i64,
    states: Seq<C::Model>,
) -> bool {
    let lo = base_position(s, cur);
    &&& s.wf()
    &&& contiguous(s.commands)
    &&& s.cur_cmd_seq_no == Some(cur)
    &&& states.len() == s.commands.len() + 1
    &&& 0 <= lo <= cur <= lo + s.commands.len()
    &&& forall|i: int|
        0 <= i < s.commands.len() ==> (#[trigger] C::decoded(s.commands[i].1) matches Some(cmd)
            && cmd.redone(states[i]) == states[i + 1] && cmd.undone(states[i + 1]) == states[i])
    &&& lo == 0 ==> states[0] == base
    &&& s.snapshots.len() <= 1
    &&& s.snapshots.len() == 0 ==> lo == 0
    &&& s.snapshots.len() == 1 ==> {
        let snapshot = s.snapshots[0];
        &&& s.commands.len() > 0
        &&& lo <= snapshot.0 <= lo + s.commands.len()
        &&& C::decoded_model(snapshot.1) == Some(states[snapshot.0 - lo])
    }
}

/// The worker's model: the one at the current position.
pub open spec fn current_model<M>(s: Stored, cur: i64, states: Seq<M>) -> M {
    states[cur - base_position(s, cur)]
}

proof fn lemma_lookup_contiguous(rows: Seq<(i64, Seq<u8>)>, id: int)
    requires
        ascending(rows),
        contiguous(rows),
        rows.len() > 0,
        rows[0].0 <= id < rows[0].0 + rows.len(),
    ensures
        lookup(rows, id) == Some(rows[id - rows[0].0].1),
{
    let i = id - rows[0].0;
    assert(rows[i].0 == rows[0].0 + i);
    lemma_lookup_at(rows, i);
}

proof fn lemma_replay_forward<C: SerializableCmd>(
    s: Stored,
    base: C::Model,
    cur: i64,
    states: Seq<C::Model>,
    from: int,
    to: int,
)
    requires
        consistent::<C>(s, base, cur, states),
        base_position(s, cur) <= from <= to <= base_position(s, cur) + s.commands.len(),
    ensures
        replay_forward::<C>(s.commands, states[from - base_position(s, cur)], from, to)
            == Replayed::Model(states[to - base_position(s, cur)]),
    decreases to - from,
{
    if from < to {
        let lo = base_position(s, cur);
        let i = from - lo;
        lemma_lookup_contiguous(s.commands, from + 1);
        assert(C::decoded(s.commands[i].1) is Some);
        lemma_replay_forward::<C>(s, base, cur, states, from + 1, to);
    }
}

proof fn lemma_replay_backward<C: SerializableCmd>(
    s: Stored,
    base: C::Model,
    cur: i64,
    states: Seq<C::Model>,
    from: int,
    to: int,
)
    requires
        consistent::<C>(s, base, cur, states),
        base_position(s, cur) <= to <= from <= base_position(s, cur) + s.commands.len(),
    ensures
        replay_backward::<C>(s.commands, states[from - base_position(s, cur)], from, to)
            == Replayed::Model(states[to - base_position(s, cur)]),
    decreases from - to,
{
    if to < from {
        let lo = base_position(s, cur);
        let i = from - lo - 1;
        lemma_lookup_contiguous(s.commands, from);
        assert(C::decoded(s.commands[i].1) is Some);
        lemma_replay_backward::<C>(s, base, cur, states, from - 1, to);
    }
}

/// Restoring reproduces the model: from tables that fit the worker's model,
/// a store that is opened again restores the current position and the model
/// at it.
pub proof fn lemma_restore_reproduces_model<C: SerializableCmd>(
    s: Stored,
    base: C::Model,
    cur: i64,
    states: Seq<C::Model>,
)
    requires
        consistent::<C>(s, base, cur, states),
    ensures
        restored::<C>(s, base) == Restored::Model(cur, current_model(s, cur, states)),
{
    let lo = base_position(s, cur);
    if cur != 0 {
        if s.snapshots.len() == 1 {
            let snapshot = s.snapshots[0];
            assert(s.snapshots.last() == snapshot);
            assert(latest_within(s.snapshots, lo, lo + s.commands.len()) == Some(snapshot));
            assert(s.commands.last().0 == s.commands[0].0 + s.commands.len() - 1);
            assert(s.eligible_snapshot() == Some(snapshot));
            if cur < snapshot.0 {
                lemma_replay_backward::<C>(s, base, cur, states, snapshot.0 as int, cur as int);
            } else {
                lemma_replay_forward::<C>(s, base, cur, states, snapshot.0 as int, cur as int);
            }
        } else {
            assert(s.snapshots.len() == 0);
            assert(s.eligible_snapshot() is None);
            lemma_replay_forward::<C>(s, base, cur, states, 0, cur as int);
        }
    }
}

/// A store file that has just been created, with its sequence number set, is
/// consistent with the default model.
pub proof fn lemma_fresh_is_consistent<C: SerializableCmd>(base: C::Model)
    ensures
        consistent::<C>(Write::InsertSeqNo(0).apply(Stored::empty()), base, 0, seq![base]),
        current_model(Write::InsertSeqNo(0).apply(Stored::empty()), 0, seq![base]) == base,
{
}

/// The models at the retained positions after `cmd` has been committed above
/// the position `cur`.
pub open spec fn states_after_add<C: Cmd>(
    s: Stored,
    cur: i64,
    states: Seq<C::Model>,
    cmd: C,
    undo_limit: nat,
) -> Seq<C::Model> {
    let applied = cur - base_position(s, cur);
    let all = states.take(applied + 1).push(cmd.redone(states[applied]));
    if applied + 1 > undo_limit {
        all.skip(applied + 1 - undo_limit)
    } else {
        all
    }
}

proof fn lemma_commands_after_add(
    rows: Seq<(i64, Seq<u8>)>,
    lo: int,
    cur: i64,
    ser_cmd: Seq<u8>,
    undo_limit: nat,
)
    requires
        ascending(rows),
        contiguous(rows),
        rows.len() > 0 ==> rows[0].0 == lo + 1,
        rows.len() == 0 ==> lo == cur,
        lo <= cur <= lo + rows.len(),
        cur < i64::MAX,
        undo_limit >= 1,
    ensures
        ({
            let id = (cur + 1) as i64;
            let applied = cur - lo;
            let inserted = below(rows, id).push((id, ser_cmd));
            let kept = newest(inserted, undo_limit);
            let removed = if applied + 1 > undo_limit {
                applied + 1 - undo_limit
            } else {
                0
            };
            &&& below(rows, id) == rows.take(applied)
            &&& inserted.len() == applied + 1
            &&& forall|j: int| 0 <= j <= applied ==> (#[trigger] inserted[j]).0 == lo + 1 + j
            &&& kept.len() == applied + 1 - removed
            &&& kept.len() <= undo_limit
            &&& forall|j: int| 0 <= j < kept.len() ==> #[trigger] kept[j] == inserted[j + removed]
            &&& ascending(kept)
            &&& contiguous(kept)
            &&& kept.last() == (id, ser_cmd)
            &&& kept[0].0 == lo + removed + 1
        }),
{
    let id = (cur + 1) as i64;
    let applied = cur - lo;
    assert forall|i: int| 0 <= i < applied implies rows[i].0 < id by {
        assert(rows[i].0 == rows[0].0 + i);
    }
    assert forall|i: int| applied <= i < rows.len() implies rows[i].0 >= id by {
        assert(rows[i].0 == rows[0].0 + i);
    }
    lemma_below_is_prefix(rows, id, applied);
    let inserted = below(rows, id).push((id, ser_cmd));
    assert forall|j: int| 0 <= j <= applied implies (#[trigger] inserted[j]).0 == lo + 1 + j by {
        if j < applied {
            assert(rows[j].0 == rows[0].0 + j);
        }
    }
    let kept = newest(inserted, undo_limit);
    let removed = if applied + 1 > undo_limit {
        applied + 1 - undo_limit
    } else {
        0
    };
    assert forall|j: int| 0 <= j < kept.len() implies #[trigger] kept[j] == inserted[j + removed] by {
    }
    assert forall|i: int, j: int| 0 <= i < j < kept.len() implies kept[i].0 < kept[j].0 by {
        assert(kept[i] == inserted[i + removed]);
        assert(kept[j] == inserted[j + removed]);
    }
    assert forall|i: int| 0 <= i < kept.len() implies #[trigger] kept[i].0 == kept[0].0 + i by {
        assert(kept[i] == inserted[i + removed]);
        assert(kept[0] == inserted[removed]);
    }
    assert(kept[0] == inserted[removed]);
}

/// The write path keeps the tables consistent, and keeps the commands in
/// order.
///
/// Where the tables fit the worker's model, the new command decodes from its
/// bytes and is undone by its `undo`, and the bytes of a snapshot decode to
/// the model that was encoded, the tables after the write path fit the model
/// with the command applied. The ids of the commands are consecutive, the
/// new command has the greatest id, at most `undo_limit` commands are
/// retained, and there is at most one snapshot.
pub proof fn lemma_write_path_keeps_consistent<C: SerializableCmd>(
    t: TablesView,
    base: C::Model,
    cur: i64,
    states: Seq<C::Model>,
    cmd: C,
    ser_cmd: Seq<u8>,
    undo_limit: nat,
    ser_model: Option<Seq<u8>>,
)
    requires
        consistent::<C>(t.stored, base, cur, states),
        cur < i64::MAX,
        undo_limit >= 1,
        C::decoded(ser_cmd) == Some(cmd),
        cmd.undone(cmd.redone(current_model(t.stored, cur, states))) == current_model(
            t.stored,
            cur,
            states,
        ),
        ser_model matches Some(bytes) ==> C::decoded_model(bytes) == Some(
            cmd.redone(current_model(t.stored, cur, states)),
        ),
        write_path(t, (cur + 1) as i64, ser_cmd, undo_limit, ser_model).done,
    ensures
        ({
            let after = write_path(t, (cur + 1) as i64, ser_cmd, undo_limit, ser_model).tables.stored;
            let models = states_after_add(t.stored, cur, states, cmd, undo_limit);
            &&& consistent::<C>(after, base, (cur + 1) as i64, models)
            &&& current_model(after, (cur + 1) as i64, models) == cmd.redone(
                current_model(t.stored, cur, states),
            )
            &&& contiguous(after.commands)
            &&& after.commands.last().0 == cur + 1
            &&& 0 < after.commands.len() <= undo_limit
            &&& after.snapshots.len() <= 1
        }),
{
    let s = t.stored;
    let id = (cur + 1) as i64;
    let lo = base_position(s, cur);
    let applied = cur - lo;
    let model = states[applied];
    let next = cmd.redone(model);
    let after = write_path(t, id, ser_cmd, undo_limit, ser_model).tables.stored;
    let models = states_after_add(s, cur, states, cmd, undo_limit);
    let removed = if applied + 1 > undo_limit {
        applied + 1 - undo_limit
    } else {
        0
    };
    if s.commands.len() > 0 {
        assert(s.commands[0].0 == lo + 1);
    }
    lemma_commands_after_add(s.commands, lo, cur, ser_cmd, undo_limit);
    let inserted = below(s.commands, id).push((id, ser_cmd));
    let kept = newest(inserted, undo_limit);
    assert(after.commands == kept);
    assert(after.cur_cmd_seq_no == Some(id));
    let all = states.take(applied + 1).push(next);
    assert(base_position(after, id) == lo + removed);
    assert forall|i: int| 0 <= i < kept.len() implies (#[trigger] C::decoded(kept[i].1) matches Some(
        c,
    ) && c.redone(models[i]) == models[i + 1] && c.undone(models[i + 1]) == models[i]) by {
        let j = i + removed;
        assert(kept[i] == inserted[j]);
        assert(models[i] == all[j]);
        assert(models[i + 1] == all[j + 1]);
        if j < applied {
            assert(inserted[j] == s.commands[j]);
            assert(C::decoded(s.commands[j].1) is Some);
        }
    }
    let deleted = s.commands.len() - applied;
    // The snapshots.
    let before = s.snapshots;
    if before.len() == 1 {
        assert(before.last() == before[0]);
    }
    let due = removed != 0 && (before.len() == 0 || before[0].0 < id - undo_limit);
    if !due && deleted == 0 {
        assert(after.snapshots == newest(before, 1));
        assert(after.snapshots == before);
        if before.len() == 1 {
            let sid = before[0].0;
            assert(models[sid - (lo + removed)] == all[sid - lo]);
        }
    } else {
        let bytes = ser_model->0;
        assert(after.snapshots =~= seq![(id, bytes)]);
        assert(models[id - (lo + removed)] == all[applied + 1]);
    }
    assert(models[id - (lo + removed)] == all[applied + 1]);
}

/// A step back or forward keeps the tables consistent: only the current
/// position moves, by one, and stays among the retained positions.
pub proof fn lemma_step_keeps_consistent<C: SerializableCmd>(
    s: Stored,
    base: C::Model,
    cur: i64,
    states: Seq<C::Model>,
    to: i64,
)
    requires
        consistent::<C>(s, base, cur, states),
        to == cur - 1 || to == cur + 1,
        s.command(if to < cur {
            cur as int
        } else {
            cur + 1
        }) is Some,
    ensures
        consistent::<C>(Write::UpdateSeqNo(to).apply(s), base, to, states),
        s.commands.len() > 0,
        to == cur - 1 ==> C::decoded(s.command(cur as int)->0) is Some && C::decoded(
            s.command(cur as int)->0,
        )->0.undone(current_model(s, cur, states)) == current_model(
            Write::UpdateSeqNo(to).apply(s),
            to,
            states,
        ),
        to == cur + 1 ==> C::decoded(s.command(cur + 1)->0) is Some && C::decoded(
            s.command(cur + 1)->0,
        )->0.redone(current_model(s, cur, states)) == current_model(
            Write::UpdateSeqNo(to).apply(s),
            to,
            states,
        ),
{
    let lo = base_position(s, cur);
    let id = if to < cur {
        cur as int
    } else {
        cur + 1
    };
    let i = choose|i: int| 0 <= i < s.commands.len() && s.commands[i].0 == id;
    assert(s.commands[i].0 == s.commands[0].0 + i);
    lemma_lookup_contiguous(s.commands, id);
    assert(C::decoded(s.commands[i].1) is Some);
}

/// The caller's bookkeeping agrees with the tables: it knows the current
/// position and the bounds of the retained commands.
pub open spec fn in_step(client: PersisterClient, s: Stored, cur: i64) -> bool {
    &&& client.last_seq_no == cur
    &&& client.min_seq_no == (match s.min_max() {
        Some((min, _)) => Some(min),
        None => None,
    })
    &&& client.max_seq_no == (match s.min_max() {
        Some((_, max)) => Some(max),
        None => None,
    })
}

/// The caller's bookkeeping after a command has been submitted and the
/// worker's acknowledgement has been taken in.
pub open spec fn client_after_add(client: PersisterClient) -> PersisterClient {
    folded(
        PersisterClient {
            last_seq_no: (client.last_seq_no + 1) as i64,
            min_seq_no: Some(
                PersisterClient::min_after_add(
                    client.min_seq_no,
                    client.last_seq_no + 1,
                    client.undo_limit as int,
                ) as i64,
            ),
            ..client
        },
        PersistResp::AddCmdOk { seq_no: (client.last_seq_no + 1) as i64 },
    ).0
}

/// The caller keeps in step with the worker: once the acknowledgement of a
/// command has been taken in, the bounds that the caller has computed are
/// those of the commands that the write path has retained, so that
/// `can_undo` and `can_redo` answer as a store would that is opened afresh.
pub proof fn lemma_client_keeps_in_step<C: SerializableCmd>(
    t: TablesView,
    base: C::Model,
    cur: i64,
    states: Seq<C::Model>,
    client: PersisterClient,
    ser_cmd: Seq<u8>,
    ser_model: Option<Seq<u8>>,
)
    requires
        consistent::<C>(t.stored, base, cur, states),
        in_step(client, t.stored, cur),
        cur < i64::MAX,
        client.undo_limit >= 1,
    ensures
        ({
            let after = write_path(
                t,
                (cur + 1) as i64,
                ser_cmd,
                client.undo_limit as nat,
                ser_model,
            ).tables.stored;
            let client_after = client_after_add(client);
            &&& in_step(client_after, after, (cur + 1) as i64)
            &&& client_after.spec_saved()
            &&& client_after.spec_can_undo()
            &&& !client_after.spec_can_redo()
        }),
{
    let s = t.stored;
    let lo = base_position(s, cur);
    if s.commands.len() > 0 {
        assert(s.commands[0].0 == lo + 1);
    }
    lemma_commands_after_add(s.commands, lo, cur, ser_cmd, client.undo_limit as nat);
}

/// A step back or forward keeps the caller in step with the worker: the
/// bounds stay, and the position is the one that the tables hold.
pub proof fn lemma_client_steps_in_step(client: PersisterClient, s: Stored, cur: i64, to: i64)
    requires
        in_step(client, s, cur),
    ensures
        in_step(PersisterClient { last_seq_no: to, ..client }, Write::UpdateSeqNo(to).apply(s), to),
{
}

/// The caller's model and position are those of the worker.
pub open spec fn replicas_agree<C: SerializableCmd>(
    store: StoreState<C::Model>,
    server: PersisterServer<C>,
) -> bool {
    server.state matches PersisterServerState::Loaded { cur_cmd_seq_no, model, .. }
        && cur_cmd_seq_no == store.client.last_seq_no && model == store.model
}

/// The replicas do not diverge on a command: where the caller's model and
/// position are those of the worker, the caller adds a command, and the worker
/// commits what the caller has sent, they agree again, provided the command
/// decodes from its encoding.
pub proof fn lemma_add_keeps_replicas<C: SerializableCmd>(
    store: StoreState<C::Model>,
    cmd: C,
    store_after: StoreState<C::Model>,
    sent: Result<PersistCmd, SqliteUndoStoreError>,
    server: PersisterServer<C>,
    server_after: PersisterServer<C>,
)
    requires
        replicas_agree(store, server),
        submitted::<C>(StoreState { model: cmd.redone(store.model), ..store }, cmd, store_after, sent),
        sent matches Ok(PersistCmd::AddCmd { seq_no, ser_cmd }) && PersisterServer::add_cmd_spec(
            server,
            server_after,
            seq_no,
            ser_cmd@,
            Ok(()),
        ),
        cmd.encoded() matches Some(bytes) && C::decoded(bytes) == Some(cmd),
    ensures
        replicas_agree(store_after, server_after),
{
}

/// The replicas do not diverge on a step back or forward: where the caller's
/// model and position are those of the worker, the worker takes the step, and
/// the caller takes in the worker's answer, they agree again.
pub proof fn lemma_step_keeps_replicas<C: SerializableCmd>(
    store: StoreState<C::Model>,
    store_after: StoreState<C::Model>,
    server: PersisterServer<C>,
    server_after: PersisterServer<C>,
    forward: bool,
    answer: (i64, Vec<u8>),
)
    requires
        replicas_agree(store, server),
        if forward {
            PersisterServer::redo_spec(server, server_after, Ok(answer))
        } else {
            PersisterServer::undo_spec(server, server_after, Ok(answer))
        },
        stepped::<C>(store, forward, Ok(answer), store_after, Ok(())),
    ensures
        replicas_agree(store_after, server_after),
{
}

/// Durability: a store that is opened on tables that fit the worker's model
/// restores this model, and tells the caller the position and the bounds of
/// the retained commands, provided the model decodes from its encoding.
pub proof fn lemma_reopen_restores_model<C: SerializableCmd>(
    tables: Tables,
    base: C::Model,
    cur: i64,
    states: Seq<C::Model>,
    idle: PersisterServer<C>,
    opened: PersisterServer<C>,
    dir: String,
    sqlite_path: String,
    action: ServerAction,
) where C::Model: Default
    requires
        consistent::<C>(tables@.stored, base, cur, states),
        idle.state is Idle,
        PersisterServer::opened_spec(idle, opened, dir, sqlite_path, Ok(tables), base, action),
        C::encoded_model(&current_model(tables@.stored, cur, states)) matches Some(bytes)
            && C::decoded_model(bytes) == Some(current_model(tables@.stored, cur, states)),
    ensures
        action matches ServerAction::Reply(
            PersistResp::OpenOk { serialized_model, seq_no, min_max_seq_no },
        ) && seq_no == cur && min_max_seq_no == tables@.stored.min_max() && C::decoded_model(
            serialized_model@,
        ) == Some(current_model(tables@.stored, cur, states)),
        opened.state matches PersisterServerState::Loaded { cur_cmd_seq_no, model, tables: held, .. }
            && cur_cmd_seq_no == cur && model == current_model(tables@.stored, cur, states)
            && held@ == tables@,
{
    lemma_restore_reproduces_model::<C>(tables@.stored, base, cur, states);
}

/// What a caller asks of a durable store.
pub enum Step<C> {
    Add(C),
    Undo,
    Redo,
}

/// The worker as a mathematical value: what the store file holds, the
/// current position, and the models at the retained positions.
pub struct Worker<C: Cmd> {
    pub stored: Stored,
    pub cur: i64,
    pub states: Seq<C::Model>,
}

impl<C: SerializableCmd> Worker<C> {
    /// The worker's model.
    pub open spec fn model(self) -> C::Model {
        current_model(self.stored, self.cur, self.states)
    }

    /// The worker of a store that has just been created.
    pub open spec fn fresh(base: C::Model) -> Self {
        Worker { stored: Write::InsertSeqNo(0).apply(Stored::empty()), cur: 0, states: seq![base] }
    }

    /// The worker after one step. A command that cannot be encoded or
    /// numbered is not committed, and a step back or forward that leads to no
    /// command is not taken: the worker stays as it is.
    pub open spec fn after(self, step: Step<C>, undo_limit: nat) -> Self {
        match step {
            Step::Add(cmd) => match cmd.encoded() {
                Some(bytes) => {
                    let next = cmd.redone(self.model());
                    let written = write_path(
                        TablesView { stored: self.stored, pending: Seq::empty() },
                        (self.cur + 1) as i64,
                        bytes,
                        undo_limit,
                        C::encoded_model(&next),
                    );
                    if self.cur < crate::options::MAX_COMMAND_ID - 1 && written.done {
                        Worker {
                            stored: written.tables.stored,
                            cur: (self.cur + 1) as i64,
                            states: states_after_add(
                                self.stored,
                                self.cur,
                                self.states,
                                cmd,
                                undo_limit,
                            ),
                        }
                    } else {
                        self
                    }
                },
                None => self,
            },
            Step::Undo => if self.stored.command(self.cur as int) is Some && self.cur > i64::MIN {
                Worker {
                    stored: Write::UpdateSeqNo((self.cur - 1) as i64).apply(self.stored),
                    cur: (self.cur - 1) as i64,
                    ..self
                }
            } else {
                self
            },
            Step::Redo => if self.stored.command(self.cur + 1) is Some {
                Worker {
                    stored: Write::UpdateSeqNo((self.cur + 1) as i64).apply(self.stored),
                    cur: (self.cur + 1) as i64,
                    ..self
                }
            } else {
                self
            },
        }
    }

    /// The worker after the steps, the first one first.
    pub open spec fn after_all(self, steps: Seq<Step<C>>, undo_limit: nat) -> Self
        decreases steps.len(),
    {
        if steps.len() == 0 {
            self
        } else {
            self.after_all(steps.drop_last(), undo_limit).after(steps.last(), undo_limit)
        }
    }
}

/// The commands undo what they do, and commands and models decode from
/// their encodings.
pub open spec fn well_behaved<C: SerializableCmd>() -> bool {
    &&& forall|cmd: C, model: C::Model| #[trigger] cmd.undone(cmd.redone(model)) == model
    &&& forall|cmd: C| (#[trigger] cmd.encoded()) matches Some(bytes) ==> C::decoded(bytes) == Some(cmd)
    &&& forall|model: C::Model| (#[trigger] C::encoded_model(&model)) matches Some(bytes)
        ==> C::decoded_model(bytes) == Some(model)
}

proof fn lemma_step_keeps_worker<C: SerializableCmd>(
    w: Worker<C>,
    base: C::Model,
    step: Step<C>,
    undo_limit: nat,
)
    requires
        well_behaved::<C>(),
        undo_limit >= 1,
        consistent::<C>(w.stored, base, w.cur, w.states),
        w.stored.commands.len() <= undo_limit,
    ensures
        consistent::<C>(
            w.after(step, undo_limit).stored,
            base,
            w.after(step, undo_limit).cur,
            w.after(step, undo_limit).states,
        ),
        w.after(step, undo_limit).stored.commands.len() <= undo_limit,
{
    match step {
        Step::Add(cmd) => {
            if cmd.encoded() is Some {
                let bytes = cmd.encoded()->0;
                let next = cmd.redone(w.model());
                let t = TablesView { stored: w.stored, pending: Seq::empty() };
                if w.cur < crate::options::MAX_COMMAND_ID - 1 && write_path(
                    t,
                    (w.cur + 1) as i64,
                    bytes,
                    undo_limit,
                    C::encoded_model(&next),
                ).done {
                    lemma_write_path_keeps_consistent::<C>(
                        t,
                        base,
                        w.cur,
                        w.states,
                        cmd,
                        bytes,
                        undo_limit,
                        C::encoded_model(&next),
                    );
                }
            }
        },
        Step::Undo => {
            if w.stored.command(w.cur as int) is Some && w.cur > i64::MIN {
                lemma_step_keeps_consistent::<C>(
                    w.stored,
                    base,
                    w.cur,
                    w.states,
                    (w.cur - 1) as i64,
                );
            }
        },
        Step::Redo => {
            if w.stored.command(w.cur + 1) is Some {
                lemma_lookup_some(w.stored.commands, w.cur + 1);
                lemma_step_keeps_consistent::<C>(
                    w.stored,
                    base,
                    w.cur,
                    w.states,
                    (w.cur + 1) as i64,
                );
            }
        },
    }
}

proof fn lemma_lookup_some(rows: Seq<(i64, Seq<u8>)>, id: int)
    requires
        lookup(rows, id) is Some,
    ensures
        i64::MIN <= id <= i64::MAX,
{
    let i = choose|i: int| 0 <= i < rows.len() && rows[i].0 == id;
    assert(rows[i].0 == id);
}

/// Snapshot policy safety and durability: whatever a caller asks of a
/// store that has been created, in whatever order, the store file holds
/// consecutive commands within the undo limit and at most one snapshot, and a
/// store that is opened on it restores the position and the model that the
/// worker has reached.
pub proof fn lemma_every_history_restores<C: SerializableCmd>(
    base: C::Model,
    steps: Seq<Step<C>>,
    undo_limit: nat,
)
    requires
        well_behaved::<C>(),
        undo_limit >= 1,
    ensures
        ({
            let w = Worker::<C>::fresh(base).after_all(steps, undo_limit);
            &&& consistent::<C>(w.stored, base, w.cur, w.states)
            &&& restored::<C>(w.stored, base) == Restored::Model(w.cur, w.model())
            &&& ascending(w.stored.commands)
            &&& contiguous(w.stored.commands)
            &&& w.stored.commands.len() <= undo_limit
            &&& w.stored.snapshots.len() <= 1
        }),
    decreases steps.len(),
{
    let w = Worker::<C>::fresh(base).after_all(steps, undo_limit);
    if steps.len() == 0 {
        lemma_fresh_is_consistent::<C>(base);
    } else {
        lemma_every_history_restores::<C>(base, steps.drop_last(), undo_limit);
        lemma_step_keeps_worker::<C>(
            Worker::<C>::fresh(base).after_all(steps.drop_last(), undo_limit),
            base,
            steps.last(),
            undo_limit,
        );
    }
    lemma_restore_reproduces_model::<C>(w.stored, base, w.cur, w.states);
}

/// The worker that a server stands for.
pub open spec fn represents<C: SerializableCmd>(server: PersisterServer<C>, w: Worker<C>) -> bool {
    server.state matches PersisterServerState::Loaded { cur_cmd_seq_no, model, tables, .. }
        && tables@.stored == w.stored && cur_cmd_seq_no == w.cur && model == w.model()
}

/// A server that commits a command takes the step of the worker that it
/// stands for.
pub proof fn lemma_add_cmd_is_a_step<C: SerializableCmd>(
    server: PersisterServer<C>,
    server_after: PersisterServer<C>,
    w: Worker<C>,
    base: C::Model,
    cmd: C,
    ser_cmd: Seq<u8>,
)
    requires
        well_behaved::<C>(),
        server.undo_limit >= 1,
        consistent::<C>(w.stored, base, w.cur, w.states),
        represents(server, w),
        cmd.encoded() == Some(ser_cmd),
        PersisterServer::add_cmd_spec(server, server_after, w.cur, ser_cmd, Ok(())),
    ensures
        represents(server_after, w.after(Step::Add(cmd), server.undo_limit as nat)),
{
    let t = TablesView { stored: w.stored, pending: Seq::empty() };
    let next = cmd.redone(w.model());
    lemma_write_path_keeps_consistent::<C>(
        t,
        base,
        w.cur,
        w.states,
        cmd,
        ser_cmd,
        server.undo_limit as nat,
        C::encoded_model(&next),
    );
}

/// A server that steps back or forward takes the step of the worker that it
/// stands for.
pub proof fn lemma_undo_redo_is_a_step<C: SerializableCmd>(
    server: PersisterServer<C>,
    server_after: PersisterServer<C>,
    w: Worker<C>,
    base: C::Model,
    forward: bool,
    answer: (i64, Vec<u8>),
)
    requires
        consistent::<C>(w.stored, base, w.cur, w.states),
        represents(server, w),
        if forward {
            PersisterServer::redo_spec(server, server_after, Ok(answer))
        } else {
            PersisterServer::undo_spec(server, server_after, Ok(answer))
        },
    ensures
        represents(
            server_after,
            w.after(
                if forward {
                    Step::Redo
                } else {
                    Step::Undo
                },
                server.undo_limit as nat,
            ),
        ),
{
    if forward {
        lemma_lookup_some(w.stored.commands, w.cur + 1);
        lemma_step_keeps_consistent::<C>(w.stored, base, w.cur, w.states, (w.cur + 1) as i64);
    } else {
        lemma_step_keeps_consistent::<C>(w.stored, base, w.cur, w.states, (w.cur - 1) as i64);
    }
}

} // verus!
