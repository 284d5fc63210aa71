//! The failure codes of the pool.

use vstd::prelude::*;

verus! {

/// Every way an operation of the pool can fail. An operation reports the
/// first rule that its input breaks and changes nothing when it fails.
#[derive(Clone, Copy, Debug, PartialEq, Eq, Structural)]
pub enum ErrorCode {
    /// The supplied root is not the pool's current root.
    RootMismatch,
    /// The nullifier was spent before, or the chunk presented for it is not its own.
    NullifierAlreadyUsed,
    /// The caller is not the configured authority.
    Unauthorized,
    /// The depositor or the recipient is on the deny list.
    DenyListBlocked,
    /// The proof was not accepted by the selected verifier.
    InvalidProof,
    /// The pool is paused.
    ContractPaused,
    /// The proof bytes are not a record of the fifteen proof fields.
    ProofParsingFailed,
    /// An evaluation is not a hexadecimal or decimal integer.
    FieldElementParsingFailed,
    /// An evaluation is not below the field modulus.
    FieldElementOutOfRange,
    /// The proof carries no evaluations.
    MissingEvaluations,
    /// A public input is not a field element.
    InvalidPublicInput,
    /// Fewer public inputs than the root and the nullifier.
    InvalidPublicInputsCount,
    /// A commitment has a length that no point encoding has.
    InvalidCurvePoint,
    /// A commitment holds a character that is not a hexadecimal digit.
    InvalidHexFormat,
    /// The inputs from which the membership claim is read are missing.
    MissingMerkleProof,
    /// A nullifier chunk with this index exists already.
    ChunkAlreadyExists,
}

} // verus!
