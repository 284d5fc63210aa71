//! The records of the pool and the accounts that each operation works on.
//! An operation is handed its accounts as plain values and leaves them as
//! they are to be stored.

use vstd::prelude::*;
use crate::keys::Pubkey;
use crate::registry::{NullifierChunk, NullifierRegistry};

verus! {

/// The pool's custody: the token account that holds the deposits.
#[derive(Clone, Copy, Debug, PartialEq, Eq)]
pub struct Vault {
    pub token_account: Pubkey,
    pub bump: u8,
}

/// The commitment tree, as far as the pool keeps it: its root.
#[derive(Clone, Copy, Debug, PartialEq, Eq)]
pub struct TreeState {
    pub root: [u8; 32],
    pub bump: u8,
}

/// The list of nullifiers of earlier layouts. Kept for its place among the
/// accounts; spent nullifiers are tracked in chunks.
#[derive(Clone, Debug, PartialEq, Eq)]
pub struct NullifierSet {
    pub nullifiers: Vec<[u8; 32]>,
    pub bump: u8,
}

/// The policy of the pool. Only its authority changes it.
#[derive(Clone, Debug, PartialEq, Eq)]
pub struct Admin {
    pub authority: Pubkey,
    pub deny_list: Vec<Pubkey>,
    pub verifier_mode: u8,
    pub verifier_magic: Vec<u8>,
    pub paused: bool,
    pub bump: u8,
}

/// Whether `who` stands in `list`.
pub open spec fn listed(list: Seq<Pubkey>, who: Seq<u8>) -> bool {
    exists|i: int| 0 <= i < list.len() && #[trigger] list[i]@ == who
}

/// Whether no identity stands twice in `list`.
pub open spec fn no_duplicates(list: Seq<Pubkey>) -> bool {
    forall|i: int, j: int| 0 <= i < j < list.len() ==> list[i]@ != list[j]@
}

impl Admin {
    /// Whether `who` is on the deny list.
    pub open spec fn denies(&self, who: Seq<u8>) -> bool {
        listed(self.deny_list@, who)
    }

    /// Whether `who` is the authority.
    pub open spec fn rules(&self, who: Seq<u8>) -> bool {
        self.authority@ == who
    }

    /// Whether `who` is on the deny list.
    pub fn is_denied(&self, who: &Pubkey) -> (r: bool)
        ensures
            r == self.denies(who@),
    {
        let mut i: usize = 0;
        while i < self.deny_list.len()
            invariant
                i <= self.deny_list@.len(),
                forall|j: int| 0 <= j < i ==> self.deny_list@[j]@ != who@,
            decreases self.deny_list@.len() - i,
        {
            if self.deny_list[i].same(who) {
                return true;
            }
            i += 1;
        }
        false
    }

    /// Whether `who` is the authority.
    pub fn is_authority(&self, who: &Pubkey) -> (r: bool)
        ensures
            r == self.rules(who@),
    {
        self.authority.same(who)
    }
}

/// A token account: its address and the identity that owns it.
#[derive(Clone, Copy, Debug, PartialEq, Eq)]
pub struct TokenAccount {
    pub key: Pubkey,
    pub owner: Pubkey,
}

/// The record of a deposit: the commitment, and the depositor's note as it
/// came, unread.
#[derive(Clone, Debug, PartialEq, Eq)]
pub struct EncryptedNoteEvent {
    pub commitment: [u8; 32],
    pub encrypted: Vec<u8>,
}

/// The record of a withdrawal: the nullifier that it spent.
#[derive(Clone, Copy, Debug, PartialEq, Eq)]
pub struct WithdrawEvent {
    pub nullifier: [u8; 32],
}

/// Who signs for a movement of tokens.
#[derive(Clone, Copy, Debug, PartialEq, Eq)]
pub enum Signatory {
    /// The owner of the source account, who signed the request.
    Owner(Pubkey),
    /// The vault, which signs by its seed and this bump.
    Vault(u8),
}

/// A movement of tokens that the ledger is to carry out.
#[derive(Clone, Copy, Debug, PartialEq, Eq)]
pub struct TransferOrder {
    pub from: Pubkey,
    pub to: Pubkey,
    pub authority: Signatory,
    pub amount: u64,
}

/// What a deposit leaves to do: the movement into custody, and the record.
#[derive(Clone, Debug, PartialEq, Eq)]
pub struct DepositReceipt {
    pub transfer: TransferOrder,
    pub event: EncryptedNoteEvent,
}

/// What a withdrawal leaves to do: the movement out of custody, and the record.
#[derive(Clone, Copy, Debug, PartialEq, Eq)]
pub struct WithdrawReceipt {
    pub transfer: TransferOrder,
    pub event: WithdrawEvent,
}

/// The accounts of `initialize`.
#[derive(Clone, Debug, PartialEq, Eq)]
pub struct Initialize {
    pub admin: Admin,
    pub tree_state: TreeState,
    pub nullifier_set: NullifierSet,
    pub vault: Vault,
    pub payer: Pubkey,
}

/// The accounts of `deposit`.
#[derive(Clone, Debug, PartialEq, Eq)]
pub struct Deposit {
    pub user: Pubkey,
    pub from: TokenAccount,
    pub admin: Admin,
    pub vault: Vault,
    pub vault_token_account: TokenAccount,
    pub tree_state: TreeState,
}

/// The accounts of `withdraw`. The chunk is the one that the caller
/// presents for the nullifier; `verifier_program` is the delegated verifier,
/// where one is named.
#[derive(Clone, Debug, PartialEq, Eq)]
pub struct Withdraw {
    pub authority: Pubkey,
    pub nullifier_set: NullifierSet,
    pub admin: Admin,
    pub vault: Vault,
    pub vault_token_account: TokenAccount,
    pub recipient_token_account: TokenAccount,
    pub tree_state: TreeState,
    pub nullifier_chunk: NullifierChunk,
    pub verifier_program: Option<Pubkey>,
}

/// The accounts of `set_verifier_mode`.
#[derive(Clone, Debug, PartialEq, Eq)]
pub struct SetVerifierMode {
    pub admin: Admin,
    pub authority: Pubkey,
    pub verifier_program: Option<Pubkey>,
}

/// The accounts of `init_nullifier_chunk`: the registry is where the chunk
/// is created.
#[derive(Clone, Debug, PartialEq, Eq)]
pub struct InitNullifierChunk {
    pub admin: Admin,
    pub authority: Pubkey,
    pub registry: NullifierRegistry,
    pub payer: Pubkey,
}

/// The accounts of `update_root`.
#[derive(Clone, Debug, PartialEq, Eq)]
pub struct UpdateRoot {
    pub admin: Admin,
    pub authority: Pubkey,
    pub tree_state: TreeState,
}

/// The accounts of `add_to_denylist` and `remove_from_denylist`.
#[derive(Clone, Debug, PartialEq, Eq)]
pub struct ModifyDenyList {
    pub admin: Admin,
    pub authority: Pubkey,
}

/// The accounts of `set_pause`.
#[derive(Clone, Debug, PartialEq, Eq)]
pub struct SetPause {
    pub admin: Admin,
    pub authority: Pubkey,
}

} // verus!
