use vstd::prelude::*;

verus! {

/// The two failure modes of the computation entry points: malformed hex
/// input, or an operation that needs at least one element receiving none.
/// Verification entry points never surface these; they fold them to `false`.
#[derive(Clone, Copy, Debug, PartialEq, Eq, Structural)]
pub enum MerkleError {
    /// A hex string had odd length or a character outside `0-9a-fA-F`.
    DecodeError,
    /// An operation that requires a non-empty list was given an empty one.
    EmptyInputError,
}

} // verus!
