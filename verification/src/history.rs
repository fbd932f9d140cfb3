//! The bounded linear history as a mathematical value, and what holds of it.

use crate::cmd::Cmd;
use vstd::prelude::*;

verus! {

/// A model together with the commands that led to it.
///
/// `entries` are the retained commands, oldest first. The first `location` of
/// them are applied to the model; the rest can be redone. At most `limit`
/// commands are retained.
pub struct History<C: Cmd> {
    pub model: C::Model,
    pub entries: Seq<C>,
    pub location: nat,
    pub limit: nat,
}

impl<C: Cmd> History<C> {
    pub open spec fn wf(self) -> bool {
        &&& self.location <= self.entries.len()
        &&& self.entries.len() <= self.limit
        &&& 0 < self.limit
    }

    /// A history without commands.
    pub open spec fn fresh(model: C::Model, limit: nat) -> Self {
        History { model, entries: Seq::empty(), location: 0, limit }
    }

    pub open spec fn can_undo(self) -> bool {
        0 < self.location
    }

    pub open spec fn can_redo(self) -> bool {
        self.location < self.entries.len()
    }

    /// The commands that stay when one more is committed: those that are
    /// applied, without the oldest ones that no longer fit.
    pub open spec fn kept(self) -> Seq<C> {
        let applied = self.entries.take(self.location as int);
        if applied.len() < self.limit {
            applied
        } else {
            applied.skip(applied.len() + 1 - self.limit)
        }
    }

    /// `cmd` becomes the newest entry; the model is left as it is.
    pub open spec fn committed(self, cmd: C) -> Self {
        let entries = self.kept().push(cmd);
        History { model: self.model, entries, location: entries.len(), limit: self.limit }
    }

    /// `cmd` is applied to the model and becomes the newest entry.
    pub open spec fn added(self, cmd: C) -> Self {
        History { model: cmd.redone(self.model), ..self.committed(cmd) }
    }

    /// One step back; nothing changes where there is nothing to undo.
    pub open spec fn undone(self) -> Self {
        if self.can_undo() {
            History {
                model: self.entries[self.location - 1].undone(self.model),
                location: (self.location - 1) as nat,
                ..self
            }
        } else {
            self
        }
    }

    /// One step forward; nothing changes where there is nothing to redo.
    pub open spec fn redone(self) -> Self {
        if self.can_redo() {
            History {
                model: self.entries[self.location as int].redone(self.model),
                location: self.location + 1,
                ..self
            }
        } else {
            self
        }
    }

    /// The history after `cmds` have been added one by one, the first one first.
    pub open spec fn added_all(self, cmds: Seq<C>) -> Self
        decreases cmds.len(),
    {
        if cmds.len() == 0 {
            self
        } else {
            self.added_all(cmds.drop_last()).added(cmds.last())
        }
    }

    /// The history after `n` steps back.
    pub open spec fn undone_times(self, n: nat) -> Self
        decreases n,
    {
        if n == 0 {
            self
        } else {
            self.undone_times((n - 1) as nat).undone()
        }
    }

    /// The history after `n` steps forward.
    pub open spec fn redone_times(self, n: nat) -> Self
        decreases n,
    {
        if n == 0 {
            self
        } else {
            self.redone_times((n - 1) as nat).redone()
        }
    }
}

/// `model` after `cmds` have been applied to it one by one, the first one first.
pub open spec fn applied<C: Cmd>(model: C::Model, cmds: Seq<C>) -> C::Model
    decreases cmds.len(),
{
    if cmds.len() == 0 {
        model
    } else {
        cmds.last().redone(applied(model, cmds.drop_last()))
    }
}

/// Each of `cmds`, taken back from the model that it produced on the way from
/// `model`, gives the model that it was applied to.
pub open spec fn reversible<C: Cmd>(model: C::Model, cmds: Seq<C>) -> bool {
    forall|i: int|
        0 <= i < cmds.len() ==> #[trigger] cmds[i].undone(applied(model, cmds.take(i + 1)))
            == applied(model, cmds.take(i))
}

proof fn lemma_added_all<C: Cmd>(h: History<C>, cmds: Seq<C>)
    requires
        h.wf(),
    ensures
        ({
            let g = h.added_all(cmds);
            &&& g.wf()
            &&& g.limit == h.limit
            &&& g.model == applied(h.model, cmds)
            &&& cmds.len() > 0 ==> g.location == g.entries.len()
            &&& 0 < cmds.len() <= h.limit ==> g.entries.len() >= cmds.len() && g.entries.skip(
                g.entries.len() - cmds.len(),
            ) == cmds
            &&& cmds.len() >= h.limit ==> g.entries == cmds.skip(cmds.len() - h.limit)
        }),
    decreases cmds.len(),
{
    if cmds.len() > 0 {
        let front = cmds.drop_last();
        let f = h.added_all(front);
        let g = f.added(cmds.last());
        lemma_added_all(h, front);
        let applied_part = f.entries.take(f.location as int);
        if front.len() == 0 {
            if cmds.len() <= h.limit {
                assert(g.entries.skip(g.entries.len() - cmds.len()) =~= cmds);
            }
            if cmds.len() >= h.limit {
                assert(g.entries =~= cmds.skip(cmds.len() - h.limit));
            }
        } else {
            assert(applied_part =~= f.entries);
            if cmds.len() <= h.limit {
                assert(g.entries.skip(g.entries.len() - cmds.len()) =~= f.entries.skip(
                    f.entries.len() - front.len(),
                ).push(cmds.last()));
                assert(front.push(cmds.last()) =~= cmds);
            }
            if cmds.len() >= h.limit {
                if front.len() >= h.limit {
                    assert(g.entries =~= cmds.skip(cmds.len() - h.limit));
                } else {
                    assert(f.entries.skip(f.entries.len() - front.len()) == front);
                    assert(f.kept() =~= front);
                    assert(g.entries =~= cmds.skip(cmds.len() - h.limit));
                }
            }
        }
    }
}

proof fn lemma_undo_walk<C: Cmd>(g: History<C>, base: C::Model, trail: Seq<C>, k: nat)
    requires
        g.wf(),
        trail.len() <= g.location,
        trail == g.entries.subrange(g.location - trail.len(), g.location as int),
        g.model == applied(base, trail),
        reversible(base, trail),
        k <= trail.len(),
    ensures
        g.undone_times(k) == (History {
            model: applied(base, trail.take(trail.len() - k)),
            location: (g.location - k) as nat,
            ..g
        }),
    decreases k,
{
    if k == 0 {
        assert(trail.take(trail.len() as int) =~= trail);
    } else {
        lemma_undo_walk(g, base, trail, (k - 1) as nat);
        let i = trail.len() - k;
        assert(trail[i] == g.entries[g.location - k]);
        assert(trail[i].undone(applied(base, trail.take(i + 1))) == applied(base, trail.take(i)));
    }
}

proof fn lemma_redo_walk<C: Cmd>(g: History<C>, ahead: Seq<C>, k: nat)
    requires
        g.wf(),
        g.location + ahead.len() <= g.entries.len(),
        ahead == g.entries.subrange(g.location as int, (g.location + ahead.len()) as int),
        k <= ahead.len(),
    ensures
        g.redone_times(k) == (History {
            model: applied(g.model, ahead.take(k as int)),
            location: g.location + k,
            ..g
        }),
    decreases k,
{
    if k > 0 {
        lemma_redo_walk(g, ahead, (k - 1) as nat);
        assert(ahead.take(k as int).drop_last() =~= ahead.take(k - 1));
        assert(ahead.take(k as int).last() == g.entries[g.location + k - 1]);
    }
}

/// Round trip: after commands that fit in the history have been added, as
/// many steps back lead to the model from before, and as many steps forward
/// lead again to the model with all of them applied.
pub proof fn lemma_round_trip<C: Cmd>(h: History<C>, cmds: Seq<C>)
    requires
        h.wf(),
        cmds.len() <= h.limit,
        reversible(h.model, cmds),
    ensures
        h.added_all(cmds).model == applied(h.model, cmds),
        h.added_all(cmds).undone_times(cmds.len()).model == h.model,
        h.added_all(cmds).undone_times(cmds.len()).redone_times(cmds.len()).model == applied(
            h.model,
            cmds,
        ),
{
    let g = h.added_all(cmds);
    lemma_added_all(h, cmds);
    if cmds.len() > 0 {
        assert(g.entries.skip(g.entries.len() - cmds.len()) =~= g.entries.subrange(
            g.location - cmds.len(),
            g.location as int,
        ));
        lemma_undo_walk(g, h.model, cmds, cmds.len());
        let u = g.undone_times(cmds.len());
        assert(cmds.take(0) =~= Seq::<C>::empty());
        lemma_redo_walk(u, cmds, cmds.len());
        assert(cmds.take(cmds.len() as int) =~= cmds);
    }
}

/// Bounded history: after at least as many commands as the history holds have
/// been added, exactly `limit` steps back can be taken. One more changes
/// nothing, and the model is then the one with all but the last `limit`
/// commands applied.
pub proof fn lemma_bounded_history<C: Cmd>(h: History<C>, cmds: Seq<C>)
    requires
        h.wf(),
        cmds.len() >= h.limit,
        reversible(
            applied(h.model, cmds.take(cmds.len() - h.limit)),
            cmds.skip(cmds.len() - h.limit),
        ),
    ensures
        forall|k: nat| k < h.limit ==> #[trigger] h.added_all(cmds).undone_times(k).can_undo(),
        !h.added_all(cmds).undone_times(h.limit).can_undo(),
        h.added_all(cmds).undone_times(h.limit + 1) == h.added_all(cmds).undone_times(h.limit),
        h.added_all(cmds).undone_times(h.limit).model == applied(
            h.model,
            cmds.take(cmds.len() - h.limit),
        ),
{
    let g = h.added_all(cmds);
    let old_part = cmds.take(cmds.len() - h.limit);
    let last_part = cmds.skip(cmds.len() - h.limit);
    let base = applied(h.model, old_part);
    lemma_added_all(h, cmds);
    lemma_applied_concat(h.model, old_part, last_part);
    assert(old_part + last_part =~= cmds);
    assert(g.entries.subrange(0, g.location as int) =~= last_part);
    assert forall|k: nat| k <= h.limit implies #[trigger] g.undone_times(k) == (History {
        model: applied(base, last_part.take(last_part.len() - k)),
        location: (g.location - k) as nat,
        ..g
    }) by {
        lemma_undo_walk(g, base, last_part, k);
    }
    assert(last_part.take(0) =~= Seq::<C>::empty());
}

proof fn lemma_applied_concat<C: Cmd>(model: C::Model, first: Seq<C>, second: Seq<C>)
    ensures
        applied(model, first + second) == applied(applied(model, first), second),
    decreases second.len(),
{
    if second.len() == 0 {
        assert(first + second =~= first);
    } else {
        lemma_applied_concat(model, first, second.drop_last());
        assert((first + second).drop_last() =~= first + second.drop_last());
    }
}

/// Truncation on branch: after some steps back and one new command nothing
/// can be redone, and the history is what was applied before, as far as it
/// fits, followed by the new command: the commands that had been taken back
/// are gone.
pub proof fn lemma_branch_truncates<C: Cmd>(h: History<C>, k: nat, cmd: C)
    requires
        h.wf(),
        k <= h.location,
    ensures
        ({
            let g = h.undone_times(k).added(cmd);
            let applied_part = h.entries.take(h.location - k);
            let dropped = if applied_part.len() < h.limit {
                0
            } else {
                applied_part.len() + 1 - h.limit
            };
            &&& g.wf()
            &&& !g.can_redo()
            &&& g.redone() == g
            &&& g.entries == applied_part.skip(dropped).push(cmd)
        }),
{
    lemma_undone_times_position(h, k);
}

proof fn lemma_undone_times_position<C: Cmd>(h: History<C>, k: nat)
    requires
        h.wf(),
        k <= h.location,
    ensures
        h.undone_times(k).entries == h.entries,
        h.undone_times(k).limit == h.limit,
        h.undone_times(k).location == h.location - k,
    decreases k,
{
    if k > 0 {
        lemma_undone_times_position(h, (k - 1) as nat);
    }
}

} // verus!
