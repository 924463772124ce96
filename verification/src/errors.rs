use vstd::prelude::*;

verus! {

/// Malformed bytes were presented to a key or signature decoder:
/// wrong length, an out-of-range scalar, or an invalid curve point.
#[derive(Clone, Copy, Debug, PartialEq, Eq, Structural)]
pub struct KeyDecodingError;

/// A Merkle root was requested for an empty transaction sequence,
/// for which no leaf layer is defined.
#[derive(Clone, Copy, Debug, PartialEq, Eq, Structural)]
pub struct EmptyCommitmentError;

} // verus!
