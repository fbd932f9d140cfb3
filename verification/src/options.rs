//! How a durable store is opened.

use std::time::Duration;
use vstd::prelude::*;

verus! {

pub const SQLITE_FILE_NAME: &'static str = "db.sqlite";

pub const DEFAULT_UNDO_LIMIT: usize = 100;

pub const MAX_COMMAND_ID: i64 = 9_223_372_036_854_775_807;

/// What is done to a model that has been read back from the store, to rebuild
/// the parts of it that are not written.
pub trait SnapshotHook<M> {
    spec fn accepts(&self, model: M) -> bool;

    spec fn restores(&self, model: M, restored: M) -> bool;

    fn restore(&self, model: M) -> (restored: M)
        requires
            self.accepts(model),
        ensures
            self.restores(model, restored),
    ;
}

impl<M, F: Fn(M) -> M> SnapshotHook<M> for F {
    open spec fn accepts(&self, model: M) -> bool {
        call_requires(*self, (model,))
    }

    open spec fn restores(&self, model: M, restored: M) -> bool {
        call_ensures(*self, (model,), restored)
    }

    fn restore(&self, model: M) -> (restored: M) {
        self(model)
    }
}

#[verifier::reject_recursive_types(M)]
pub struct Options<M> {
    pub undo_limit: usize,
    pub merge_timeout: Option<Duration>,
    /// Called when a snapshot is restored. If you have states that are out of scope to manage undo/redo operations, you can restore them here.
    pub on_snapshot_restored: Option<Box<dyn SnapshotHook<M>>>,
}

impl<M> Options<M> {
    pub fn new() -> (r: Self)
        ensures
            r.undo_limit == DEFAULT_UNDO_LIMIT,
            r.merge_timeout is None,
            r.on_snapshot_restored is None,
    {
        Self { undo_limit: DEFAULT_UNDO_LIMIT, merge_timeout: None, on_snapshot_restored: None }
    }

    pub fn with_undo_limit(self, l: usize) -> (r: Self)
        ensures
            r == (Options { undo_limit: l, ..self }),
    {
        Self { undo_limit: l, ..self }
    }

    pub fn with_merge_timeout(self, timeout: Duration) -> (r: Self)
        ensures
            r == (Options { merge_timeout: Some(timeout), ..self }),
    {
        Self { merge_timeout: Some(timeout), ..self }
    }

    pub fn with_on_snapshot_restored(self, on_snapshot_restored: Box<dyn SnapshotHook<M>>) -> (r:
        Self)
        ensures
            r == (Options { on_snapshot_restored: Some(on_snapshot_restored), ..self }),
    {
        Self { on_snapshot_restored: Some(on_snapshot_restored), ..self }
    }
}

} // verus!
