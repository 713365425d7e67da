//! Errors of the library.

use vstd::prelude::*;

verus! {

/// What can go wrong while a query is built.
#[derive(Debug)]
pub enum OrmoluError {
    /// No pass of the replay reached the predicate's `true` exit within the
    /// attempt ceiling.
    MalformedPredicate,
    /// The command kind has no grammar to render.
    UnsupportedCommand,
    /// The entity has no column of this name.
    UnknownColumn,
    /// Any other failure, with its message.
    Other(String),
}

} // verus!
