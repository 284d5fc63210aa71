//! The proof verifier: one acceptance policy for each mode that the pool's
//! policy can select, and the older entry that compares magic bytes.

use vstd::prelude::*;
use crate::errors::ErrorCode;
use crate::json::json_object_members;
use crate::keys::{same_bytes, Pubkey};
use crate::plonk::{structural_outcome, verify_plonk};
use crate::state::Admin;
use crate::text::texts;

verus! {

/// The policies by which a proof is accepted.
#[derive(Clone, Copy, Debug, PartialEq, Eq, Structural)]
pub enum VerifierMode {
    /// Any proof that is not empty is accepted. A placeholder, no control.
    Disabled,
    /// The proof is accepted when it is the magic bytes.
    StubMagic,
    /// The proof is accepted when the delegated verifier accepts it.
    Delegated,
    /// The proof is accepted when it passes the structural check.
    StructuralPlonk,
}

/// The policy that a mode number selects: 1 the magic bytes, 2 the
/// delegated verifier, 3 the structural check, and every other number none.
pub open spec fn mode_of(code: u8) -> VerifierMode {
    if code == 1 {
        VerifierMode::StubMagic
    } else if code == 2 {
        VerifierMode::Delegated
    } else if code == 3 {
        VerifierMode::StructuralPlonk
    } else {
        VerifierMode::Disabled
    }
}

/// An acceptance as an answer: `InvalidProof` where the proof is not accepted.
pub open spec fn accepted_or_invalid(accepted: bool) -> Result<(), ErrorCode> {
    if accepted {
        Ok(())
    } else {
        Err(ErrorCode::InvalidProof)
    }
}

/// An answer of the structural check without its challenge.
pub open spec fn without_challenge(r: Result<Seq<char>, ErrorCode>) -> Result<(), ErrorCode> {
    match r {
        Ok(_) => Ok(()),
        Err(e) => Err(e),
    }
}

/// What the verifier answers. `has_target` says whether a delegated
/// verifier is named, `accepted` what it answered, and `structural` what the
/// structural check answered; each counts in its own mode only.
pub open spec fn proof_outcome(
    mode: u8,
    magic: Seq<u8>,
    has_target: bool,
    accepted: bool,
    proof_bytes: Seq<u8>,
    structural: Result<Seq<char>, ErrorCode>,
) -> Result<(), ErrorCode> {
    match mode_of(mode) {
        VerifierMode::Disabled => accepted_or_invalid(proof_bytes.len() > 0),
        VerifierMode::StubMagic => accepted_or_invalid(magic.len() > 0 && proof_bytes == magic),
        VerifierMode::Delegated => accepted_or_invalid(has_target && accepted),
        VerifierMode::StructuralPlonk => without_challenge(structural),
    }
}

/// Whether the older entry accepts a proof: magic bytes are given, they
/// are not empty, and the proof is exactly these. Without magic bytes there
/// is nothing that a proof could equal.
pub open spec fn legacy_accepts(proof_bytes: Seq<u8>, magic: Option<Seq<u8>>) -> bool {
    match magic {
        Some(m) => m.len() > 0 && proof_bytes == m,
        None => false,
    }
}

/// The bytes of an optional byte string.
pub open spec fn option_bytes(bytes: Option<Vec<u8>>) -> Option<Seq<u8>> {
    match bytes {
        Some(b) => Some(b@),
        None => None,
    }
}

/// The account of `verify`. The verifier keeps no state.
#[derive(Clone, Copy, Debug, PartialEq, Eq)]
pub struct Verify {
    pub program_account: Pubkey,
}

/// The policy that the mode number `code` selects.
pub fn select_mode(code: u8) -> (r: VerifierMode)
    ensures
        r == mode_of(code),
{
    if code == 1 {
        VerifierMode::StubMagic
    } else if code == 2 {
        VerifierMode::Delegated
    } else if code == 3 {
        VerifierMode::StructuralPlonk
    } else {
        VerifierMode::Disabled
    }
}

/// With no verifier selected: a proof is accepted when it is not empty.
pub fn verify_disabled(proof_bytes: &Vec<u8>) -> (r: Result<(), ErrorCode>)
    ensures
        r == accepted_or_invalid(proof_bytes@.len() > 0),
{
    if proof_bytes.len() > 0 {
        Ok(())
    } else {
        Err(ErrorCode::InvalidProof)
    }
}

/// By magic bytes: a proof is accepted when there are magic bytes and the
/// proof is exactly these.
pub fn verify_stub_magic(proof_bytes: &Vec<u8>, magic: &Vec<u8>) -> (r: Result<(), ErrorCode>)
    ensures
        r == accepted_or_invalid(magic@.len() > 0 && proof_bytes@ == magic@),
{
    if magic.len() > 0 && same_bytes(proof_bytes, magic) {
        Ok(())
    } else {
        Err(ErrorCode::InvalidProof)
    }
}

/// By delegation: a proof is accepted when a verifier is named and it
/// accepted the proof.
pub fn verify_delegated(target: &Option<Pubkey>, accepted: bool) -> (r: Result<(), ErrorCode>)
    ensures
        r == accepted_or_invalid(target.is_some() && accepted),
{
    if target.is_some() && accepted {
        Ok(())
    } else {
        Err(ErrorCode::InvalidProof)
    }
}

/// Checks a proof by the policy that `admin` selects. `target` is the
/// delegated verifier, where one is named, and `accepted` its answer to the
/// proof and the magic bytes; `inputs` are the public inputs of the
/// structural check.
pub fn check_proof(
    admin: &Admin,
    target: &Option<Pubkey>,
    accepted: bool,
    proof_bytes: &Vec<u8>,
    inputs: &Vec<String>,
) -> (r: Result<(), ErrorCode>)
    ensures
        r == proof_outcome(
            admin.verifier_mode,
            admin.verifier_magic@,
            target.is_some(),
            accepted,
            proof_bytes@,
            structural_outcome(json_object_members(proof_bytes@), texts(inputs@)),
        ),
{
    match select_mode(admin.verifier_mode) {
        VerifierMode::Disabled => verify_disabled(proof_bytes),
        VerifierMode::StubMagic => verify_stub_magic(proof_bytes, &admin.verifier_magic),
        VerifierMode::Delegated => verify_delegated(target, accepted),
        VerifierMode::StructuralPlonk => match verify_plonk(proof_bytes, inputs) {
            Ok(_) => Ok(()),
            Err(e) => Err(e),
        },
    }
}

/// The older entry: accepts a proof by its equality with the magic bytes,
/// as the mode of the magic bytes does, and never parses it.
pub fn verify(_ctx: &Verify, proof_bytes: Vec<u8>, magic: Option<Vec<u8>>) -> (r: Result<
    (),
    ErrorCode,
>)
    ensures
        r == accepted_or_invalid(legacy_accepts(proof_bytes@, option_bytes(magic))),
{
    match magic {
        Some(m) => verify_stub_magic(&proof_bytes, &m),
        None => Err(ErrorCode::InvalidProof),
    }
}

/// The older entry answers as the mode of the magic bytes does: with
/// magic bytes as that mode does with them, and without as that mode does
/// with none.
pub proof fn law_legacy_is_stub_magic(
    proof_bytes: Seq<u8>,
    magic: Option<Seq<u8>>,
    has_target: bool,
    accepted: bool,
    structural: Result<Seq<char>, ErrorCode>,
)
    ensures
        accepted_or_invalid(legacy_accepts(proof_bytes, magic)) == proof_outcome(
            1,
            match magic {
                Some(m) => m,
                None => Seq::empty(),
            },
            has_target,
            accepted,
            proof_bytes,
            structural,
        ),
{
}

/// In the mode of the magic bytes, with magic bytes set, exactly the proof
/// that is the magic bytes is accepted, and every other proof fails with
/// `InvalidProof`, whatever else is given.
pub proof fn law_stub_magic(
    magic: Seq<u8>,
    proof_bytes: Seq<u8>,
    has_target: bool,
    accepted: bool,
    structural: Result<Seq<char>, ErrorCode>,
)
    requires
        magic.len() > 0,
    ensures
        proof_bytes == magic ==> proof_outcome(
            1,
            magic,
            has_target,
            accepted,
            proof_bytes,
            structural,
        ) == Ok::<(), ErrorCode>(()),
        proof_bytes != magic ==> proof_outcome(
            1,
            magic,
            has_target,
            accepted,
            proof_bytes,
            structural,
        ) == Err::<(), ErrorCode>(ErrorCode::InvalidProof),
{
}

} // verus!
