//! Settlement core of a shielded pool: value is deposited against a hidden
//! commitment and withdrawn against a proof and a nullifier.
//!
//! A withdrawal passes, in this order, the pause, the deny list, the root,
//! the proof and the nullifier registry. It reports the first that stops it
//! and then changes nothing. What is left to the host is handed out as
//! plain values: the movement of tokens and the record to publish.

pub mod acceptance;
pub mod access;
pub mod errors;
pub mod field;
pub mod json;
pub mod keys;
pub mod plonk;
pub mod record;
pub mod registry;
pub mod settlement;
pub mod state;
pub mod text;

pub use crate::acceptance::{verify, Verify};
pub use crate::access::{
    add_to_denylist, init_nullifier_chunk, initialize, remove_from_denylist, set_pause,
    set_verifier_mode, update_root,
};
pub use crate::errors::ErrorCode;
pub use crate::keys::Pubkey;
pub use crate::registry::{NullifierChunk, NullifierRegistry};
pub use crate::settlement::{deposit, withdraw};
pub use crate::state::{
    Admin, Deposit, EncryptedNoteEvent, InitNullifierChunk, Initialize, ModifyDenyList,
    NullifierSet, SetPause, SetVerifierMode, TreeState, UpdateRoot, Vault, Withdraw,
    WithdrawEvent,
};
