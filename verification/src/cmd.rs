//! What the engine asks of a command.

use vstd::prelude::*;

verus! {

/// A reversible change of a model.
///
/// `redone` and `undone` say what `redo` and `undo` do to a model. The engine
/// calls `undo` only on the model that the matching `redo` left behind.
pub trait Cmd {
    type Model;

    /// The model after the command has been applied to `model`.
    spec fn redone(&self, model: Self::Model) -> Self::Model;

    /// The model after the command has been taken back from `model`.
    spec fn undone(&self, model: Self::Model) -> Self::Model;

    fn undo(&self, model: &mut Self::Model)
        ensures
            *final(model) == self.undone(*old(model)),
    ;

    fn redo(&self, model: &mut Self::Model)
        ensures
            *final(model) == self.redone(*old(model)),
    ;

    /// If two commands can be merged, merge them and return the merged command.
    ///
    /// The merged command is of the type of `_other`, whatever that type is,
    /// and only a reference to `_other` is at hand: no value of that type can
    /// be made, so the merge is declined.
    fn merge<T>(&self, _other: &T) -> (merged: Option<T>)
        ensures
            merged is None,
    {
        None
    }
}

/// Encoded bytes, as contracts speak of them.
pub type EncodedBytes = Seq<u8>;

/// A command that can be kept in a durable store: it and its model can be
/// written to bytes and read back.
///
/// `encoded` is `None` for a value that cannot be written, `decoded` is `None`
/// for bytes that are no value. Each executable method answers as its spec
/// function says, so the codec is deterministic.
pub trait SerializableCmd: Cmd + Sized {
    spec fn encoded(&self) -> Option<EncodedBytes>;

    spec fn decoded(bytes: EncodedBytes) -> Option<Self>;

    spec fn encoded_model(model: &Self::Model) -> Option<EncodedBytes>;

    spec fn decoded_model(bytes: EncodedBytes) -> Option<Self::Model>;

    /// Writes the command to bytes; the error is the codec's message.
    fn encode(&self) -> (r: Result<Vec<u8>, String>)
        ensures
            match r {
                Ok(bytes) => self.encoded() == Some(bytes@),
                Err(_) => self.encoded() is None,
            },
    ;

    /// Reads a command from bytes; the error is the codec's message.
    fn decode(bytes: &Vec<u8>) -> (r: Result<Self, String>)
        ensures
            match r {
                Ok(cmd) => Self::decoded(bytes@) == Some(cmd),
                Err(_) => Self::decoded(bytes@) is None,
            },
    ;

    /// Writes a model to bytes; the error is the codec's message.
    fn encode_model(model: &Self::Model) -> (r: Result<Vec<u8>, String>)
        ensures
            match r {
                Ok(bytes) => Self::encoded_model(model) == Some(bytes@),
                Err(_) => Self::encoded_model(model) is None,
            },
    ;

    /// Reads a model from bytes; the error is the codec's message.
    fn decode_model(bytes: &Vec<u8>) -> (r: Result<Self::Model, String>)
        ensures
            match r {
                Ok(model) => Self::decoded_model(bytes@) == Some(model),
                Err(_) => Self::decoded_model(bytes@) is None,
            },
    ;
}

} // verus!
