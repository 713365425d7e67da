//! Kinds of SQL command.

use vstd::prelude::*;

verus! {

/// A SQL command. Only `Select` and `Delete` have a grammar so far.
pub enum Command {
    Insert {  },
    Update {  },
    Delete,
    Select { columns: &'static [&'static str] },
}

/// The texts of a list of names.
pub open spec fn names_of(v: Seq<&'static str>) -> Seq<Seq<char>> {
    v.map_values(|c: &'static str| c@)
}

} // verus!
