//! The tables of a store file as data.
//!
//! [`Tables`] holds the rows of the `command` and `snapshot` tables and the
//! current sequence number, and keeps a journal of the statements that have
//! changed them. Whoever owns the file loads the rows when the store is
//! opened and writes the journal through to the file.

use vstd::prelude::*;

verus! {

/// One row of the `command` or of the `snapshot` table.
#[derive(Debug, Clone, PartialEq, Eq)]
pub struct Row {
    pub id: i64,
    pub serialized: Vec<u8>,
}

impl View for Row {
    type V = (i64, Seq<u8>);

    open spec fn view(&self) -> (i64, Seq<u8>) {
        (self.id, self.serialized@)
    }
}

/// One statement that changes the store file.
#[derive(Debug, Clone, PartialEq, Eq)]
pub enum DbWrite {
    /// `insert into cmd_seq_no (cur_cmd_seq_no) values (?1)`
    InsertSeqNo(i64),
    /// `update cmd_seq_no set cur_cmd_seq_no = ?1`
    UpdateSeqNo(i64),
    /// `delete from command where ?1 <= command_id`
    DeleteCommandsFrom(i64),
    /// `insert into command (command_id, serialized) values (?1, ?2)`
    InsertCommand(i64, Vec<u8>),
    /// Deletes every command that is not among the `?1` with the greatest ids.
    TrimCommands(usize),
    /// `insert into snapshot (snapshot_id, serialized) values (?1, ?2)`
    InsertSnapshot(i64, Vec<u8>),
    /// `delete from snapshot`
    DeleteSnapshots,
    /// Deletes every snapshot but the one with the greatest id.
    TrimSnapshots,
}

/// A statement as a mathematical value.
pub enum Write {
    InsertSeqNo(i64),
    UpdateSeqNo(i64),
    DeleteCommandsFrom(i64),
    InsertCommand(i64, Seq<u8>),
    TrimCommands(nat),
    InsertSnapshot(i64, Seq<u8>),
    DeleteSnapshots,
    TrimSnapshots,
}

impl View for DbWrite {
    type V = Write;

    open spec fn view(&self) -> Write {
        match self {
            DbWrite::InsertSeqNo(seq_no) => Write::InsertSeqNo(*seq_no),
            DbWrite::UpdateSeqNo(seq_no) => Write::UpdateSeqNo(*seq_no),
            DbWrite::DeleteCommandsFrom(seq_no) => Write::DeleteCommandsFrom(*seq_no),
            DbWrite::InsertCommand(id, bytes) => Write::InsertCommand(*id, bytes@),
            DbWrite::TrimCommands(limit) => Write::TrimCommands(*limit as nat),
            DbWrite::InsertSnapshot(id, bytes) => Write::InsertSnapshot(*id, bytes@),
            DbWrite::DeleteSnapshots => Write::DeleteSnapshots,
            DbWrite::TrimSnapshots => Write::TrimSnapshots,
        }
    }
}

/// The rows are ordered by their ids, and no id occurs twice.
pub open spec fn ascending(rows: Seq<(i64, Seq<u8>)>) -> bool {
    forall|i: int, j: int| 0 <= i < j < rows.len() ==> rows[i].0 < rows[j].0
}

/// The ids of the rows are consecutive numbers.
pub open spec fn contiguous(rows: Seq<(i64, Seq<u8>)>) -> bool {
    forall|i: int| 0 <= i < rows.len() ==> #[trigger] rows[i].0 == rows[0].0 + i
}

/// The `n` rows with the greatest ids, or all rows where there are fewer.
pub open spec fn newest(rows: Seq<(i64, Seq<u8>)>, n: nat) -> Seq<(i64, Seq<u8>)> {
    if rows.len() > n {
        rows.skip(rows.len() - n)
    } else {
        rows
    }
}

/// The rows whose ids are less than `seq_no`.
pub open spec fn below(rows: Seq<(i64, Seq<u8>)>, seq_no: i64) -> Seq<(i64, Seq<u8>)> {
    rows.filter(|row: (i64, Seq<u8>)| row.0 < seq_no)
}

/// The payload of the row with this id.
pub open spec fn lookup(rows: Seq<(i64, Seq<u8>)>, id: int) -> Option<Seq<u8>> {
    if exists|i: int| 0 <= i < rows.len() && rows[i].0 == id {
        Some(rows[choose|i: int| 0 <= i < rows.len() && rows[i].0 == id].1)
    } else {
        None
    }
}

/// The last of the rows whose id lies in `lo..=hi`.
pub open spec fn latest_within(rows: Seq<(i64, Seq<u8>)>, lo: int, hi: int) -> Option<
    (i64, Seq<u8>),
>
    decreases rows.len(),
{
    if rows.len() == 0 {
        None
    } else if lo <= rows.last().0 <= hi {
        Some(rows.last())
    } else {
        latest_within(rows.drop_last(), lo, hi)
    }
}

/// What a store file holds.
pub struct Stored {
    /// The `command` table, ordered by `command_id`.
    pub commands: Seq<(i64, Seq<u8>)>,
    /// The `snapshot` table, ordered by `snapshot_id`.
    pub snapshots: Seq<(i64, Seq<u8>)>,
    /// The row of `cmd_seq_no`, if there is one.
    pub cur_cmd_seq_no: Option<i64>,
}

impl Stored {
    pub open spec fn wf(self) -> bool {
        &&& ascending(self.commands)
        &&& ascending(self.snapshots)
    }

    pub open spec fn empty() -> Self {
        Stored { commands: Seq::empty(), snapshots: Seq::empty(), cur_cmd_seq_no: None }
    }

    /// The least and the greatest command id.
    pub open spec fn min_max(self) -> Option<(i64, i64)> {
        if self.commands.len() == 0 {
            None
        } else {
            Some((self.commands.first().0, self.commands.last().0))
        }
    }

    pub open spec fn command(self, id: int) -> Option<Seq<u8>> {
        lookup(self.commands, id)
    }

    /// The greatest snapshot id.
    pub open spec fn last_snapshot_id(self) -> Option<i64> {
        if self.snapshots.len() == 0 {
            None
        } else {
            Some(self.snapshots.last().0)
        }
    }

    /// The snapshot with the greatest id from which the retained commands
    /// lead to every position: its id is at least the least command id minus
    /// one and at most the greatest command id.
    pub open spec fn eligible_snapshot(self) -> Option<(i64, Seq<u8>)> {
        match self.min_max() {
            None => None,
            Some((min, max)) => latest_within(self.snapshots, min - 1, max as int),
        }
    }
}

impl Write {
    /// Whether the statement can be executed on `s`: a row is inserted only
    /// above every id that is there.
    pub open spec fn fits(self, s: Stored) -> bool {
        match self {
            Write::InsertSeqNo(_) => s.cur_cmd_seq_no is None,
            Write::InsertCommand(id, _) => s.commands.len() == 0 || s.commands.last().0 < id,
            Write::InsertSnapshot(id, _) => s.snapshots.len() == 0 || s.snapshots.last().0 < id,
            _ => true,
        }
    }

    /// What the store file holds after the statement.
    pub open spec fn apply(self, s: Stored) -> Stored {
        match self {
            Write::InsertSeqNo(seq_no) => Stored { cur_cmd_seq_no: Some(seq_no), ..s },
            Write::UpdateSeqNo(seq_no) => Stored {
                cur_cmd_seq_no: if s.cur_cmd_seq_no is Some {
                    Some(seq_no)
                } else {
                    None
                },
                ..s
            },
            Write::DeleteCommandsFrom(seq_no) => Stored {
                commands: below(s.commands, seq_no),
                ..s
            },
            Write::InsertCommand(id, bytes) => Stored {
                commands: s.commands.push((id, bytes)),
                ..s
            },
            Write::TrimCommands(limit) => Stored { commands: newest(s.commands, limit), ..s },
            Write::InsertSnapshot(id, bytes) => Stored {
                snapshots: s.snapshots.push((id, bytes)),
                ..s
            },
            Write::DeleteSnapshots => Stored { snapshots: Seq::empty(), ..s },
            Write::TrimSnapshots => Stored { snapshots: newest(s.snapshots, 1), ..s },
        }
    }
}

/// The tables and the journal as mathematical values.
pub struct TablesView {
    pub stored: Stored,
    /// The statements that have led to `stored` and are not yet written
    /// through, the oldest first.
    pub pending: Seq<Write>,
}

impl TablesView {
    /// The tables after `w`, with `w` journalled.
    pub open spec fn executed(self, w: Write) -> Self {
        TablesView { stored: w.apply(self.stored), pending: self.pending.push(w) }
    }
}

pub open spec fn rows_view(rows: Seq<Row>) -> Seq<(i64, Seq<u8>)> {
    rows.map_values(|row: Row| row@)
}

pub open spec fn writes_view(writes: Seq<DbWrite>) -> Seq<Write> {
    writes.map_values(|w: DbWrite| w@)
}

/// Where the rows are ordered and those before `k` are the ones below
/// `seq_no`, the rows below `seq_no` are the first `k`.
pub proof fn lemma_below_is_prefix(rows: Seq<(i64, Seq<u8>)>, seq_no: i64, k: int)
    requires
        0 <= k <= rows.len(),
        forall|i: int| 0 <= i < k ==> rows[i].0 < seq_no,
        forall|i: int| k <= i < rows.len() ==> rows[i].0 >= seq_no,
    ensures
        below(rows, seq_no) == rows.take(k),
    decreases rows.len(),
{
    let pred = |row: (i64, Seq<u8>)| row.0 < seq_no;
    reveal(Seq::filter);
    if rows.len() == 0 {
        assert(rows.take(k) =~= rows);
    } else if k == rows.len() {
        lemma_below_is_prefix(rows.drop_last(), seq_no, k - 1);
        assert(rows.drop_last().take(k - 1).push(rows.last()) =~= rows.take(k));
    } else {
        lemma_below_is_prefix(rows.drop_last(), seq_no, k);
        assert(rows.drop_last().take(k) =~= rows.take(k));
    }
}

/// In ordered rows an id is found at one place only.
pub proof fn lemma_lookup_at(rows: Seq<(i64, Seq<u8>)>, i: int)
    requires
        ascending(rows),
        0 <= i < rows.len(),
    ensures
        lookup(rows, rows[i].0 as int) == Some(rows[i].1),
{
    let id = rows[i].0 as int;
    let j = choose|j: int| 0 <= j < rows.len() && rows[j].0 == id;
    if j < i {
        assert(rows[j].0 < rows[i].0);
    } else if i < j {
        assert(rows[i].0 < rows[j].0);
    }
}

/// Among ordered rows, [`latest_within`] finds the row with the greatest id
/// in `lo..=hi`, and none only where no id lies there.
pub proof fn lemma_latest_within_is_greatest(rows: Seq<(i64, Seq<u8>)>, lo: int, hi: int)
    requires
        ascending(rows),
    ensures
        match latest_within(rows, lo, hi) {
            Some(found) => {
                &&& lo <= found.0 <= hi
                &&& exists|i: int| 0 <= i < rows.len() && rows[i] == found
                &&& forall|j: int|
                    0 <= j < rows.len() && lo <= (#[trigger] rows[j]).0 <= hi ==> rows[j].0
                        <= found.0
            },
            None => forall|j: int| 0 <= j < rows.len() ==> !(lo <= (#[trigger] rows[j]).0 <= hi),
        },
    decreases rows.len(),
{
    if rows.len() > 0 {
        let last = rows.last();
        if lo <= last.0 <= hi {
            assert(rows[rows.len() - 1] == last);
            assert forall|j: int| 0 <= j < rows.len() && lo <= (#[trigger] rows[j]).0 <= hi implies rows[j].0
                <= last.0 by {
                if j < rows.len() - 1 {
                    assert(rows[j].0 < rows[rows.len() - 1].0);
                }
            }
        } else {
            let front = rows.drop_last();
            assert forall|i: int, j: int| 0 <= i < j < front.len() implies front[i].0 < front[j].0 by {
                assert(rows[i].0 < rows[j].0);
            }
            lemma_latest_within_is_greatest(front, lo, hi);
            match latest_within(front, lo, hi) {
                Some(found) => {
                    let i = choose|i: int| 0 <= i < front.len() && front[i] == found;
                    assert(rows[i] == found);
                    assert forall|j: int|
                        0 <= j < rows.len() && lo <= (#[trigger] rows[j]).0 <= hi implies rows[j].0
                        <= found.0 by {
                        assert(front[j] == rows[j]);
                    }
                },
                None => {
                    assert forall|j: int| 0 <= j < rows.len() implies !(lo <= (#[trigger] rows[j]).0
                        <= hi) by {
                        if j < front.len() {
                            assert(front[j] == rows[j]);
                        }
                    }
                },
            }
        }
    }
}

/// The store file of one durable store, held in memory.
pub struct Tables {
    commands: Vec<Row>,
    snapshots: Vec<Row>,
    cur_cmd_seq_no: Option<i64>,
    pending: Vec<DbWrite>,
}

impl View for Tables {
    type V = TablesView;

    closed spec fn view(&self) -> TablesView {
        TablesView {
            stored: Stored {
                commands: rows_view(self.commands@),
                snapshots: rows_view(self.snapshots@),
                cur_cmd_seq_no: self.cur_cmd_seq_no,
            },
            pending: writes_view(self.pending@),
        }
    }
}

fn is_ascending(rows: &Vec<Row>) -> (r: bool)
    ensures
        r == ascending(rows_view(rows@)),
{
    let mut i: usize = 1;
    while i < rows.len()
        invariant
            1 <= i,
            forall|a: int, b: int| 0 <= a < b < i && b < rows.len() ==> rows[a].id < rows[b].id,
        decreases rows.len() - i,
    {
        if rows[i - 1].id >= rows[i].id {
            proof {
                let v = rows_view(rows@);
                assert(v[i - 1].0 >= v[i as int].0);
            }
            return false;
        }
        proof {
            assert forall|a: int, b: int| 0 <= a < b < i + 1 && b < rows.len() implies rows[a].id
                < rows[b].id by {
                if b == i && a < i - 1 {
                    assert(rows[a].id < rows[i - 1].id);
                }
            }
        }
        i += 1;
    }
    proof {
        let v = rows_view(rows@);
        assert forall|a: int, b: int| 0 <= a < b < v.len() implies v[a].0 < v[b].0 by {
            assert(rows[a].id < rows[b].id);
        }
    }
    true
}

fn ids_of(rows: &Vec<Row>) -> (ids: Vec<i64>)
    ensures
        ids@ == rows_view(rows@).map_values(|row: (i64, Seq<u8>)| row.0),
{
    let mut ids: Vec<i64> = Vec::new();
    let mut i: usize = 0;
    while i < rows.len()
        invariant
            i <= rows.len(),
            ids@ == rows_view(rows@).take(i as int).map_values(|row: (i64, Seq<u8>)| row.0),
        decreases rows.len() - i,
    {
        ids.push(rows[i].id);
        proof {
            let v = rows_view(rows@);
            let f = |row: (i64, Seq<u8>)| row.0;
            assert(v.take(i + 1).map_values(f) =~= v.take(i as int).map_values(f).push(v[i as int].0));
        }
        i += 1;
    }
    proof {
        let v = rows_view(rows@);
        assert(v.take(rows.len() as int) =~= v);
    }
    ids
}

impl Tables {
    /// The rows are ordered by their ids.
    pub open spec fn wf(&self) -> bool {
        self@.stored.wf()
    }

    /// The tables of a store file that has just been created.
    pub fn new() -> (r: Self)
        ensures
            r@.stored == Stored::empty(),
            r@.pending == Seq::<Write>::empty(),
            r.wf(),
    {
        let r = Tables {
            commands: Vec::new(),
            snapshots: Vec::new(),
            cur_cmd_seq_no: None,
            pending: Vec::new(),
        };
        proof {
            assert(r@.stored.commands =~= Seq::empty());
            assert(r@.stored.snapshots =~= Seq::empty());
            assert(r@.pending =~= Seq::empty());
        }
        r
    }

    /// The tables of a store file with these rows. `None` where the rows of a
    /// table are not ordered by their ids or an id occurs twice.
    pub fn from_rows(commands: Vec<Row>, snapshots: Vec<Row>, cur_cmd_seq_no: Option<i64>) -> (r:
        Option<Self>)
        ensures
            match r {
                Some(t) => {
                    &&& t.wf()
                    &&& t@.stored == (Stored {
                        commands: rows_view(commands@),
                        snapshots: rows_view(snapshots@),
                        cur_cmd_seq_no,
                    })
                    &&& t@.pending == Seq::<Write>::empty()
                },
                None => !ascending(rows_view(commands@)) || !ascending(rows_view(snapshots@)),
            },
    {
        if is_ascending(&commands) && is_ascending(&snapshots) {
            let t = Tables { commands, snapshots, cur_cmd_seq_no, pending: Vec::new() };
            proof {
                assert(t@.pending =~= Seq::empty());
            }
            Some(t)
        } else {
            None
        }
    }

    pub fn commands(&self) -> (r: &Vec<Row>)
        ensures
            rows_view(r@) == self@.stored.commands,
    {
        &self.commands
    }

    pub fn snapshots(&self) -> (r: &Vec<Row>)
        ensures
            rows_view(r@) == self@.stored.snapshots,
    {
        &self.snapshots
    }

    pub fn cur_cmd_seq_no(&self) -> (r: Option<i64>)
        ensures
            r == self@.stored.cur_cmd_seq_no,
    {
        self.cur_cmd_seq_no
    }

    /// The ids of the commands, in ascending order.
    pub fn command_ids(&self) -> (ids: Vec<i64>)
        ensures
            ids@ == self@.stored.commands.map_values(|row: (i64, Seq<u8>)| row.0),
    {
        ids_of(&self.commands)
    }

    /// The ids of the snapshots, in ascending order.
    pub fn snapshot_ids(&self) -> (ids: Vec<i64>)
        ensures
            ids@ == self@.stored.snapshots.map_values(|row: (i64, Seq<u8>)| row.0),
    {
        ids_of(&self.snapshots)
    }

    /// Hands out the journal, which is then empty.
    pub fn take_writes(&mut self) -> (writes: Vec<DbWrite>)
        ensures
            writes_view(writes@) == old(self)@.pending,
            final(self)@.stored == old(self)@.stored,
            final(self)@.pending == Seq::<Write>::empty(),
    {
        let mut writes: Vec<DbWrite> = Vec::new();
        std::mem::swap(&mut writes, &mut self.pending);
        proof {
            assert(self@.pending =~= Seq::empty());
        }
        writes
    }

    fn journal(&mut self, w: DbWrite)
        ensures
            final(self).commands == old(self).commands,
            final(self).snapshots == old(self).snapshots,
            final(self).cur_cmd_seq_no == old(self).cur_cmd_seq_no,
            final(self)@.pending == old(self)@.pending.push(w@),
    {
        self.pending.push(w);
        proof {
            assert(writes_view(self.pending@) =~= writes_view(old(self).pending@).push(w@));
        }
    }

    /// The least and the greatest command id, if there is a command.
    pub fn min_max_seq_no(&self) -> (r: Option<(i64, i64)>)
        ensures
            r == self@.stored.min_max(),
    {
        let len = self.commands.len();
        if len == 0 {
            None
        } else {
            Some((self.commands[0].id, self.commands[len - 1].id))
        }
    }

    /// The payload of the command with this id, if there is one.
    pub fn command(&self, id: i64) -> (r: Option<&Vec<u8>>)
        requires
            self.wf(),
        ensures
            match r {
                Some(bytes) => self@.stored.command(id as int) == Some(bytes@),
                None => self@.stored.command(id as int) is None,
            },
    {
        // The rows are ordered: the id is searched for by halving.
        let ghost rows = self@.stored.commands;
        let mut lo: usize = 0;
        let mut hi: usize = self.commands.len();
        while lo < hi
            invariant
                lo <= hi <= self.commands.len(),
                self.wf(),
                rows == self@.stored.commands,
                forall|j: int| 0 <= j < lo ==> rows[j].0 < id,
                forall|j: int| hi <= j < rows.len() ==> rows[j].0 > id,
            decreases hi - lo,
        {
            let mid = lo + (hi - lo) / 2;
            let found = self.commands[mid].id;
            proof {
                assert(rows[mid as int].0 == found);
            }
            if found == id {
                proof {
                    lemma_lookup_at(rows, mid as int);
                }
                return Some(&self.commands[mid].serialized);
            } else if found < id {
                proof {
                    assert forall|j: int| 0 <= j < mid + 1 implies rows[j].0 < id by {
                        if j < mid {
                            assert(rows[j].0 < rows[mid as int].0);
                        }
                    }
                }
                lo = mid + 1;
            } else {
                proof {
                    assert forall|j: int| mid <= j < rows.len() implies rows[j].0 > id by {
                        if mid < j {
                            assert(rows[mid as int].0 < rows[j].0);
                        }
                    }
                }
                hi = mid;
            }
        }
        None
    }

    /// The current sequence number. Where the file holds none yet, it is set
    /// to zero.
    pub fn get_cur_seq_no(&mut self) -> (seq_no: i64)
        ensures
            match old(self)@.stored.cur_cmd_seq_no {
                Some(cur) => seq_no == cur && final(self)@ == old(self)@,
                None => seq_no == 0 && final(self)@ == old(self)@.executed(Write::InsertSeqNo(0)),
            },
    {
        match self.cur_cmd_seq_no {
            Some(cur) => cur,
            None => {
                self.cur_cmd_seq_no = Some(0);
                self.journal(DbWrite::InsertSeqNo(0));
                0
            },
        }
    }

    /// Sets the current sequence number.
    pub fn save_seq_no(&mut self, seq_no: i64)
        ensures
            final(self)@ == old(self)@.executed(Write::UpdateSeqNo(seq_no)),
    {
        if self.cur_cmd_seq_no.is_some() {
            self.cur_cmd_seq_no = Some(seq_no);
        }
        self.journal(DbWrite::UpdateSeqNo(seq_no));
    }

    /// Deletes the commands whose id is `seq_no` or greater, and returns how
    /// many there were.
    pub fn delete_commands_from(&mut self, seq_no: i64) -> (deleted: usize)
        requires
            old(self).wf(),
        ensures
            final(self)@ == old(self)@.executed(Write::DeleteCommandsFrom(seq_no)),
            final(self).wf(),
            deleted == old(self)@.stored.commands.len() - final(self)@.stored.commands.len(),
    {
        let len = self.commands.len();
        let mut keep: usize = len;
        while keep > 0 && self.commands[keep - 1].id >= seq_no
            invariant
                keep <= len == self.commands.len(),
                forall|i: int| keep <= i < len ==> self.commands[i].id >= seq_no,
            decreases keep,
        {
            keep -= 1;
        }
        proof {
            let rows = rows_view(self.commands@);
            assert forall|i: int| 0 <= i < keep implies rows[i].0 < seq_no by {
                assert(rows[i].0 <= rows[keep - 1].0);
            }
            assert forall|i: int| keep <= i < rows.len() implies rows[i].0 >= seq_no by {
                assert(self.commands[i].id >= seq_no);
            }
            lemma_below_is_prefix(rows, seq_no, keep as int);
        }
        self.commands.truncate(keep);
        proof {
            assert(rows_view(self.commands@) =~= rows_view(old(self).commands@).take(keep as int));
        }
        self.journal(DbWrite::DeleteCommandsFrom(seq_no));
        len - keep
    }

    /// Inserts a command above every command that is there. Where a command
    /// with this id or a greater one is there, nothing is inserted and `false`
    /// is returned.
    pub fn insert_command(&mut self, id: i64, serialized: Vec<u8>) -> (inserted: bool)
        requires
            old(self).wf(),
        ensures
            inserted == Write::InsertCommand(id, serialized@).fits(old(self)@.stored),
            inserted ==> final(self)@ == old(self)@.executed(
                Write::InsertCommand(id, serialized@),
            ),
            !inserted ==> final(self)@ == old(self)@,
            final(self).wf(),
    {
        let len = self.commands.len();
        proof {
            if len > 0 {
                assert(rows_view(self.commands@).last() == self.commands@[len - 1]@);
            }
        }
        if len > 0 && self.commands[len - 1].id >= id {
            return false;
        }
        let journalled = serialized.clone();
        self.commands.push(Row { id, serialized });
        proof {
            assert(journalled@ =~= serialized@);
            let rows = rows_view(self.commands@);
            let before = rows_view(old(self).commands@);
            assert(rows =~= before.push((id, serialized@)));
            assert forall|i: int, j: int| 0 <= i < j < rows.len() implies rows[i].0 < rows[j].0 by {
                if j == before.len() {
                    assert(before[i].0 <= before.last().0);
                } else {
                    assert(before[i].0 < before[j].0);
                }
            }
        }
        self.journal(DbWrite::InsertCommand(id, journalled));
        true
    }

    /// Deletes every command that is not among the `undo_limit` with the
    /// greatest ids, and returns how many there were.
    pub fn trim_undo_records(&mut self, undo_limit: usize) -> (removed: usize)
        requires
            old(self).wf(),
        ensures
            final(self)@ == old(self)@.executed(Write::TrimCommands(undo_limit as nat)),
            final(self).wf(),
            removed == old(self)@.stored.commands.len() - final(self)@.stored.commands.len(),
    {
        let len = self.commands.len();
        let removed = if len > undo_limit {
            let removed = len - undo_limit;
            let kept = self.commands.split_off(removed);
            self.commands = kept;
            proof {
                assert(rows_view(self.commands@) =~= rows_view(old(self).commands@).skip(
                    removed as int,
                ));
            }
            removed
        } else {
            0
        };
        proof {
            let rows = rows_view(self.commands@);
            let before = rows_view(old(self).commands@);
            assert forall|i: int, j: int| 0 <= i < j < rows.len() implies rows[i].0 < rows[j].0 by {
                assert(before[i + removed].0 < before[j + removed].0);
            }
        }
        self.journal(DbWrite::TrimCommands(undo_limit));
        removed
    }

    /// The greatest snapshot id, if there is a snapshot.
    pub fn get_last_snapshot_id(&self) -> (r: Option<i64>)
        ensures
            r == self@.stored.last_snapshot_id(),
    {
        let len = self.snapshots.len();
        if len == 0 {
            None
        } else {
            Some(self.snapshots[len - 1].id)
        }
    }

    /// The snapshot to restore from: see [`Stored::eligible_snapshot`].
    pub fn load_last_snapshot(&self) -> (r: Option<(i64, &Vec<u8>)>)
        ensures
            match r {
                Some((id, bytes)) => self@.stored.eligible_snapshot() == Some((id, bytes@)),
                None => self@.stored.eligible_snapshot() is None,
            },
    {
        let (min, max) = match self.min_max_seq_no() {
            None => {
                return None;
            },
            Some(min_max) => min_max,
        };
        let ghost rows = rows_view(self.snapshots@);
        let ghost lo = min - 1;
        let ghost hi = max as int;
        let mut i: usize = self.snapshots.len();
        proof {
            assert(rows.take(i as int) =~= rows);
        }
        while i > 0
            invariant
                i <= self.snapshots.len(),
                rows == rows_view(self.snapshots@),
                lo == min - 1,
                hi == max,
                self@.stored.min_max() == Some((min, max)),
                latest_within(rows, lo, hi) == latest_within(rows.take(i as int), lo, hi),
            decreases i,
        {
            let id = self.snapshots[i - 1].id;
            proof {
                assert(rows.take(i as int).last() == rows[i - 1]);
                assert(rows.take(i as int).drop_last() =~= rows.take(i - 1));
            }
            if (min == i64::MIN || min - 1 <= id) && id <= max {
                proof {
                    assert(rows[i - 1] == self.snapshots@[i - 1]@);
                    assert(latest_within(rows.take(i as int), lo, hi) == Some(rows[i - 1]));
                }
                return Some((id, &self.snapshots[i - 1].serialized));
            }
            i -= 1;
        }
        proof {
            assert(rows.take(0).len() == 0);
        }
        None
    }

    /// Inserts a snapshot above every snapshot that is there. Where a
    /// snapshot with this id or a greater one is there, nothing is inserted
    /// and `false` is returned.
    pub fn save_snapshot(&mut self, seq_no: i64, ser_model: Vec<u8>) -> (inserted: bool)
        requires
            old(self).wf(),
        ensures
            inserted == Write::InsertSnapshot(seq_no, ser_model@).fits(old(self)@.stored),
            inserted ==> final(self)@ == old(self)@.executed(
                Write::InsertSnapshot(seq_no, ser_model@),
            ),
            !inserted ==> final(self)@ == old(self)@,
            final(self).wf(),
    {
        let len = self.snapshots.len();
        proof {
            if len > 0 {
                assert(rows_view(self.snapshots@).last() == self.snapshots@[len - 1]@);
            }
        }
        if len > 0 && self.snapshots[len - 1].id >= seq_no {
            return false;
        }
        let journalled = ser_model.clone();
        self.snapshots.push(Row { id: seq_no, serialized: ser_model });
        proof {
            assert(journalled@ =~= ser_model@);
            let rows = rows_view(self.snapshots@);
            let before = rows_view(old(self).snapshots@);
            assert(rows =~= before.push((seq_no, ser_model@)));
            assert forall|i: int, j: int| 0 <= i < j < rows.len() implies rows[i].0 < rows[j].0 by {
                if j == before.len() {
                    assert(before[i].0 <= before.last().0);
                } else {
                    assert(before[i].0 < before[j].0);
                }
            }
        }
        self.journal(DbWrite::InsertSnapshot(seq_no, journalled));
        true
    }

    /// Deletes every snapshot.
    pub fn delete_snapshots(&mut self)
        ensures
            final(self)@ == old(self)@.executed(Write::DeleteSnapshots),
            old(self).wf() ==> final(self).wf(),
    {
        self.snapshots.clear();
        proof {
            assert(rows_view(self.snapshots@) =~= Seq::empty());
        }
        self.journal(DbWrite::DeleteSnapshots);
    }

    /// Deletes every snapshot but the one with the greatest id, and returns
    /// how many there were.
    pub fn trim_snapshots(&mut self) -> (removed: usize)
        requires
            old(self).wf(),
        ensures
            final(self)@ == old(self)@.executed(Write::TrimSnapshots),
            final(self).wf(),
            removed == old(self)@.stored.snapshots.len() - final(self)@.stored.snapshots.len(),
    {
        let len = self.snapshots.len();
        let removed = if len > 1 {
            let kept = self.snapshots.split_off(len - 1);
            self.snapshots = kept;
            proof {
                assert(rows_view(self.snapshots@) =~= rows_view(old(self).snapshots@).skip(
                    len - 1,
                ));
            }
            len - 1
        } else {
            0
        };
        self.journal(DbWrite::TrimSnapshots);
        removed
    }
}

} // verus!
