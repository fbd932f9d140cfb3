//! An undo/redo engine for applications whose state is one model that changes
//! only through reversible commands.
//!
//! A command ([`cmd::Cmd`]) applies a change to the model and takes it back.
//! [`undo_store::InMemoryUndoStore`] keeps a bounded history of commands in
//! memory; what holds of such a history is proved in [`history`].
//!
//! The durable store keeps its history in a store file. Its engine does no
//! I/O of its own. [`tables`] holds the tables of the file as data and
//! journals the statements that change them, [`restore`] rebuilds the model
//! from them, [`persister_server`] is the worker that owns them, and
//! [`persister_client`] and [`sqlite_undo_store`] are the caller's side; the
//! two sides talk in the messages of [`protocol`]. What holds of the tables
//! between operations is proved in [`durability`].

pub mod cmd;
pub mod durability;
pub mod history;
pub mod options;
pub mod persister_client;
pub mod persister_server;
pub mod protocol;
pub mod restore;
pub mod sqlite_undo_store;
pub mod sqlite_undo_store_error;
pub mod tables;
pub mod undo_store;
