//! The kinds of failure that the ledger's operations report.

use vstd::prelude::*;

verus! {

/// What kind of rule a refused operation ran into. Whatever the kind, a
/// refused operation has changed nothing.
#[derive(Copy, Clone, Debug, PartialEq, Eq, Structural)]
pub enum ErrorKind {
    /// The caller is not the party that the operation is reserved for.
    Authorization,
    /// The records are not in a state that admits the operation.
    State,
    /// An argument is not one that the operation accepts.
    Validation,
    /// The operation comes too early or too late.
    Temporal,
    /// A balance, a stake or an allowance does not cover the operation.
    Resource,
    /// A result does not fit the integer type.
    Arithmetic,
}

} // verus!
