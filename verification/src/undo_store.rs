//! The store interface and the store that keeps its history in memory.

use crate::cmd::Cmd;
use crate::history::History;
use std::marker::PhantomData;
use vstd::prelude::*;

verus! {

/// A model that changes only through commands, with undo and redo.
pub trait UndoStore {
    type ModelType;

    type CmdType: Cmd<Model = Self::ModelType>;

    type ErrType;

    /// What every operation keeps true of the store.
    spec fn wf(&self) -> bool;

    /// The model as it stands.
    spec fn current(&self) -> &Self::ModelType;

    spec fn undoable(&self) -> bool;

    spec fn redoable(&self) -> bool;

    fn model(&self) -> (r: &Self::ModelType)
        ensures
            *r == self.current(),
    ;

    /// Lets `f` change the model and commits the command that `f` returns,
    /// without applying it again. Where `f` fails, its error is returned and
    /// the model stays as `f` left it.
    fn mutate<F: FnOnce(&mut Self::ModelType) -> Result<Self::CmdType, Self::ErrType>>(
        &mut self,
        f: F,
    ) -> (r: Result<(), Self::ErrType>)
        requires
            old(self).wf(),
            forall|m: &mut Self::ModelType| *m == old(self).current() ==> call_requires(f, (m,)),
        ensures
            final(self).wf(),
            exists|m: &mut Self::ModelType, out: Result<Self::CmdType, Self::ErrType>|
                {
                    &&& *m == old(self).current()
                    &&& *final(m) == final(self).current()
                    &&& call_ensures(f, (m,), out)
                    &&& match out {
                        Ok(_) => r is Ok,
                        Err(e) => r == Err::<(), Self::ErrType>(e),
                    }
                },
    ;

    /// Mutate a part of model that is out of scope to manage undo/redo operations.
    fn irreversible_mutate<R, F: FnOnce(&mut Self::ModelType) -> R>(&mut self, f: F) -> (r: R) where
        Self: Sized,

        requires
            old(self).wf(),
            forall|m: &mut Self::ModelType| *m == old(self).current() ==> call_requires(f, (m,)),
        ensures
            final(self).wf(),
            exists|m: &mut Self::ModelType|
                {
                    &&& *m == old(self).current()
                    &&& *final(m) == final(self).current()
                    &&& call_ensures(f, (m,), r)
                },
            final(self).undoable() == old(self).undoable(),
            final(self).redoable() == old(self).redoable(),
    ;

    /// Applies `cmd` to the model and commits it.
    fn add_cmd(&mut self, cmd: Self::CmdType)
        requires
            old(self).wf(),
        ensures
            final(self).wf(),
            *final(self).current() == cmd.redone(*old(self).current()),
    ;

    fn can_undo(&self) -> (r: bool)
        ensures
            r == self.undoable(),
    ;

    /// Takes the newest applied command back; does nothing where there is none.
    fn undo(&mut self)
        requires
            old(self).wf(),
        ensures
            final(self).wf(),
            !old(self).undoable() ==> final(self).current() == old(self).current(),
    ;

    fn can_redo(&self) -> (r: bool)
        ensures
            r == self.redoable(),
    ;

    /// Applies the oldest command that was taken back; does nothing where
    /// there is none.
    fn redo(&mut self)
        requires
            old(self).wf(),
        ensures
            final(self).wf(),
            !old(self).redoable() ==> final(self).current() == old(self).current(),
    ;
}

#[derive(Debug)]
pub enum InMemoryStoreErr {
    // Undo/Redo
    CannotUndoRedo,
}

/// A store whose history lives in memory and holds at most `capacity` commands.
pub struct InMemoryUndoStore<C, M, E> where M: Default {
    phantom: PhantomData<E>,
    model: M,
    store: Vec<C>,
    location: usize,
    capacity: usize,
}

impl<C, M, E> InMemoryUndoStore<C, M, E> where M: Default {
    pub closed spec fn spec_model(&self) -> M {
        self.model
    }

    pub closed spec fn entries(&self) -> Seq<C> {
        self.store@
    }

    pub closed spec fn location(&self) -> nat {
        self.location as nat
    }

    pub closed spec fn limit(&self) -> nat {
        self.capacity as nat
    }

    /// An empty store over the default model that retains up to `capacity`
    /// commands.
    pub fn new(capacity: usize) -> (r: Self)
        requires
            0 < capacity,
        ensures
            call_ensures(M::default, (), r.spec_model()),
            r.entries() == Seq::<C>::empty(),
            r.location() == 0,
            r.limit() == capacity,
    {
        Self { phantom: PhantomData, model: M::default(), store: Vec::new(), location: 0, capacity }
    }
}

impl<C, M, E> View for InMemoryUndoStore<C, M, E> where M: Default, C: Cmd<Model = M> {
    type V = History<C>;

    open spec fn view(&self) -> History<C> {
        History {
            model: self.spec_model(),
            entries: self.entries(),
            location: self.location(),
            limit: self.limit(),
        }
    }
}

impl<C, M, E> InMemoryUndoStore<C, M, E> where M: Default, C: Cmd<Model = M> {
    fn post_cmd(&mut self, cmd: C)
        requires
            old(self)@.wf(),
        ensures
            final(self)@ == old(self)@.committed(cmd),
            final(self)@.wf(),
    {
        if self.location < self.store.len() {
            self.store.truncate(self.location);
        }
        if self.capacity <= self.store.len() {
            self.store.remove(0);
        }
        self.store.push(cmd);
        self.location = self.store.len();
        proof {
            assert(self.store@ =~= old(self)@.kept().push(cmd));
        }
    }
}

impl<C, M, E> UndoStore for InMemoryUndoStore<C, M, E> where M: Default, C: Cmd<Model = M> {
    type ModelType = M;

    type CmdType = C;

    type ErrType = E;

    open spec fn wf(&self) -> bool {
        self@.wf()
    }

    open spec fn current(&self) -> &M {
        &self@.model
    }

    open spec fn undoable(&self) -> bool {
        self@.can_undo()
    }

    open spec fn redoable(&self) -> bool {
        self@.can_redo()
    }

    fn mutate<F: FnOnce(&mut M) -> Result<C, E>>(&mut self, f: F) -> (r: Result<(), E>)
        ensures
            exists|m: &mut M, out: Result<C, E>|
                {
                    &&& *m == old(self)@.model
                    &&& call_ensures(f, (m,), out)
                    &&& match out {
                        Ok(cmd) => r is Ok && final(self)@ == (History {
                            model: *final(m),
                            ..old(self)@
                        }).committed(cmd),
                        Err(e) => r == Err::<(), E>(e) && final(self)@ == (History {
                            model: *final(m),
                            ..old(self)@
                        }),
                    }
                },
    {
        let result = f(&mut self.model);
        match result {
            Ok(cmd) => {
                self.post_cmd(cmd);
                Ok(())
            },
            Err(e) => Err(e),
        }
    }

    fn add_cmd(&mut self, cmd: C)
        ensures
            final(self)@ == old(self)@.added(cmd),
    {
        cmd.redo(&mut self.model);
        self.post_cmd(cmd);
    }

    #[inline]
    fn can_undo(&self) -> (r: bool)
        ensures
            r == self@.can_undo(),
    {
        0 < self.location
    }

    fn undo(&mut self)
        ensures
            final(self)@ == old(self)@.undone(),
    {
        if self.can_undo() {
            self.location -= 1;
            let cmd = &self.store[self.location];
            cmd.undo(&mut self.model)
        }
    }

    #[inline]
    fn can_redo(&self) -> (r: bool)
        ensures
            r == self@.can_redo(),
    {
        self.location < self.store.len()
    }

    fn redo(&mut self)
        ensures
            final(self)@ == old(self)@.redone(),
    {
        if self.can_redo() {
            let cmd = &self.store[self.location];
            cmd.redo(&mut self.model);
            self.location += 1;
        }
    }

    fn model(&self) -> (r: &M)
        ensures
            *r == self@.model,
    {
        &self.model
    }

    fn irreversible_mutate<R, F: FnOnce(&mut M) -> R>(&mut self, f: F) -> (r: R)
        ensures
            exists|m: &mut M|
                {
                    &&& *m == old(self)@.model
                    &&& call_ensures(f, (m,), r)
                    &&& final(self)@ == (History { model: *final(m), ..old(self)@ })
                },
    {
        f(&mut self.model)
    }
}

} // verus!
