//! Deposits and withdrawals. A withdrawal passes the pause, the deny list,
//! the root, the proof and the nullifier, in this order, and reports the
//! first that stops it; a withdrawal that fails changes nothing.

use vstd::prelude::*;
use crate::acceptance::{check_proof, proof_outcome};
use crate::errors::ErrorCode;
use crate::json::json_object_members;
use crate::keys::{same_word, Pubkey};
use crate::plonk::structural_outcome;
use crate::registry::{bit_index_of, bitmap_with, chunk_index_of, locate, NullifierChunk};
use crate::state::{
    Admin, Deposit, DepositReceipt, EncryptedNoteEvent, Signatory, TransferOrder, Withdraw,
    WithdrawEvent, WithdrawReceipt,
};
use crate::text::texts;

verus! {

/// What stops a withdrawal before its proof is looked at, if anything
/// does: the pause, then the deny list, then the root.
pub open spec fn gate_error(ctx: Withdraw, root: Seq<u8>) -> Option<ErrorCode> {
    if ctx.admin.paused {
        Some(ErrorCode::ContractPaused)
    } else if ctx.admin.denies(ctx.recipient_token_account.owner@) {
        Some(ErrorCode::DenyListBlocked)
    } else if ctx.tree_state.root@ != root {
        Some(ErrorCode::RootMismatch)
    } else {
        None
    }
}

/// Whether the chunk refuses the nullifier: it is not the nullifier's
/// chunk, or the nullifier's bit is set.
pub open spec fn chunk_refuses(chunk: NullifierChunk, nullifier: Seq<u8>) -> bool {
    chunk.index != chunk_index_of(nullifier) || chunk.is_spent(bit_index_of(nullifier) as u8)
}

/// What stops a withdrawal, if anything does, where `verdict` is the
/// verifier's answer to its proof.
pub open spec fn withdraw_error(
    ctx: Withdraw,
    verdict: Result<(), ErrorCode>,
    nullifier: Seq<u8>,
    root: Seq<u8>,
) -> Option<ErrorCode> {
    if gate_error(ctx, root).is_some() {
        gate_error(ctx, root)
    } else if verdict is Err {
        Some(verdict->Err_0)
    } else if chunk_refuses(ctx.nullifier_chunk, nullifier) {
        Some(ErrorCode::NullifierAlreadyUsed)
    } else {
        None
    }
}

/// Whether `after` is `before` with the nullifier's bit set in the chunk
/// and nothing else changed.
pub open spec fn marked(before: Withdraw, after: Withdraw, nullifier: Seq<u8>) -> bool {
    &&& after.nullifier_chunk.index == before.nullifier_chunk.index
    &&& after.nullifier_chunk.bump == before.nullifier_chunk.bump
    &&& after.nullifier_chunk.bitmap@ == bitmap_with(
        before.nullifier_chunk.bitmap@,
        bit_index_of(nullifier) as u8,
    )
    &&& after.nullifier_chunk.spent() == before.nullifier_chunk.spent().insert(
        bit_index_of(nullifier) as u8,
    )
    &&& after.nullifier_chunk.is_spent(bit_index_of(nullifier) as u8)
    &&& after.authority == before.authority
    &&& after.nullifier_set == before.nullifier_set
    &&& after.admin == before.admin
    &&& after.vault == before.vault
    &&& after.vault_token_account == before.vault_token_account
    &&& after.recipient_token_account == before.recipient_token_account
    &&& after.tree_state == before.tree_state
    &&& after.verifier_program == before.verifier_program
}

/// Whether `receipt` is what a withdrawal of `amount` against `nullifier`
/// leaves to do: the movement from custody to the recipient, signed by the
/// vault, and the record of the nullifier.
pub open spec fn withdraw_receipt(
    ctx: Withdraw,
    receipt: WithdrawReceipt,
    nullifier: Seq<u8>,
    amount: u64,
) -> bool {
    &&& receipt.transfer.from == ctx.vault_token_account.key
    &&& receipt.transfer.to == ctx.recipient_token_account.key
    &&& receipt.transfer.authority == Signatory::Vault(ctx.vault.bump)
    &&& receipt.transfer.amount == amount
    &&& receipt.event.nullifier@ == nullifier
}

/// Whether a withdrawal that went from `before` to `after` with the answer
/// `r` did what it is to do, where `verdict` is the verifier's answer.
pub open spec fn withdrawn(
    before: Withdraw,
    after: Withdraw,
    verdict: Result<(), ErrorCode>,
    nullifier: Seq<u8>,
    root: Seq<u8>,
    amount: u64,
    r: Result<WithdrawReceipt, ErrorCode>,
) -> bool {
    match withdraw_error(before, verdict, nullifier, root) {
        Some(e) => r == Err::<WithdrawReceipt, ErrorCode>(e) && after == before,
        None => r is Ok && withdraw_receipt(before, r->Ok_0, nullifier, amount) && marked(
            before,
            after,
            nullifier,
        ),
    }
}

/// Takes a deposit: refuses a depositor on the deny list, and else sets the
/// root to the commitment and hands out the movement into custody and the
/// record, with the note as it came.
pub fn deposit(
    ctx: &mut Deposit,
    amount: u64,
    commitment: [u8; 32],
    encrypted_note: Option<Vec<u8>>,
) -> (r: Result<DepositReceipt, ErrorCode>)
    ensures
        r.is_ok() == !old(ctx).admin.denies(old(ctx).user@),
        r.is_err() ==> r == Err::<DepositReceipt, ErrorCode>(ErrorCode::DenyListBlocked)
            && *final(ctx) == *old(ctx),
        r.is_ok() ==> final(ctx).tree_state.root == commitment,
        final(ctx).tree_state.bump == old(ctx).tree_state.bump,
        final(ctx).user == old(ctx).user,
        final(ctx).from == old(ctx).from,
        final(ctx).admin == old(ctx).admin,
        final(ctx).vault == old(ctx).vault,
        final(ctx).vault_token_account == old(ctx).vault_token_account,
        r matches Ok(receipt) ==> receipt.transfer.from == old(ctx).from.key && receipt.transfer.to
            == old(ctx).vault_token_account.key && receipt.transfer.authority == Signatory::Owner(
            old(ctx).user,
        ) && receipt.transfer.amount == amount && receipt.event.commitment == commitment
            && receipt.event.encrypted@ == crate::access::bytes_or_empty(encrypted_note),
{
    if ctx.admin.is_denied(&ctx.user) {
        return Err(ErrorCode::DenyListBlocked);
    }
    let transfer = TransferOrder {
        from: ctx.from.key,
        to: ctx.vault_token_account.key,
        authority: Signatory::Owner(ctx.user),
        amount,
    };
    ctx.tree_state.root = commitment;
    let encrypted: Vec<u8> = match encrypted_note {
        Some(note) => note,
        None => Vec::new(),
    };
    Ok(DepositReceipt { transfer, event: EncryptedNoteEvent { commitment, encrypted } })
}

/// Passes the gates of a withdrawal: the pause, the deny list, the root.
pub fn check_gates(ctx: &Withdraw, root: &[u8; 32]) -> (r: Result<(), ErrorCode>)
    ensures
        match gate_error(*ctx, root@) {
            Some(e) => r == Err::<(), ErrorCode>(e),
            None => r.is_ok(),
        },
{
    if ctx.admin.paused {
        return Err(ErrorCode::ContractPaused);
    }
    if ctx.admin.is_denied(&ctx.recipient_token_account.owner) {
        return Err(ErrorCode::DenyListBlocked);
    }
    if !same_word(&ctx.tree_state.root, root) {
        return Err(ErrorCode::RootMismatch);
    }
    Ok(())
}

/// The delegated verifier that a withdrawal is to ask before it is
/// settled, if it is to ask one: the gates are passed, the mode is the
/// delegated one, and a verifier is named.
pub fn delegation_target(ctx: &Withdraw, root: &[u8; 32]) -> (r: Option<Pubkey>)
    ensures
        r == (if gate_error(*ctx, root@).is_none() && ctx.admin.verifier_mode == 2 {
            ctx.verifier_program
        } else {
            None
        }),
{
    if check_gates(ctx, root).is_err() {
        return None;
    }
    if ctx.admin.verifier_mode != 2 {
        return None;
    }
    ctx.verifier_program
}

/// The last steps of a withdrawal that has passed the gates with the
/// verifier's answer `verdict`: takes the answer, marks the nullifier in one
/// step with the test that it was not spent, and hands out the movement out
/// of custody and the record.
fn finish(
    ctx: &mut Withdraw,
    verdict: Result<(), ErrorCode>,
    nullifier: [u8; 32],
    root: [u8; 32],
    amount: u64,
) -> (r: Result<WithdrawReceipt, ErrorCode>)
    requires
        gate_error(*old(ctx), root@).is_none(),
    ensures
        withdrawn(*old(ctx), *final(ctx), verdict, nullifier@, root@, amount, r),
{
    match verdict {
        Ok(_) => {},
        Err(e) => {
            return Err(e);
        },
    }
    let (chunk_index, bit_index) = locate(&nullifier);
    match ctx.nullifier_chunk.mark_if_unused(chunk_index, bit_index) {
        Ok(_) => {},
        Err(_) => {
            return Err(ErrorCode::NullifierAlreadyUsed);
        },
    }
    let transfer = TransferOrder {
        from: ctx.vault_token_account.key,
        to: ctx.recipient_token_account.key,
        authority: Signatory::Vault(ctx.vault.bump),
        amount,
    };
    Ok(WithdrawReceipt { transfer, event: WithdrawEvent { nullifier } })
}

/// Settles a withdrawal whose proof the verifier has answered with
/// `verdict`: passes the gates, takes the verifier's answer, marks the
/// nullifier in one step with the test that it was not spent, and hands out
/// the movement out of custody and the record.
pub fn settle(
    ctx: &mut Withdraw,
    verdict: Result<(), ErrorCode>,
    nullifier: [u8; 32],
    root: [u8; 32],
    amount: u64,
) -> (r: Result<WithdrawReceipt, ErrorCode>)
    ensures
        withdrawn(*old(ctx), *final(ctx), verdict, nullifier@, root@, amount, r),
{
    match check_gates(ctx, &root) {
        Ok(_) => finish(ctx, verdict, nullifier, root, amount),
        Err(e) => Err(e),
    }
}

/// Withdraws `amount` against a proof and a nullifier. `public_inputs` are
/// the public inputs of the structural check; `delegated_accepts` is the
/// answer of the delegated verifier to the proof and the magic bytes. Each
/// counts in its own mode only. The proof is looked at only behind the gates.
pub fn withdraw(
    ctx: &mut Withdraw,
    proof_bytes: Vec<u8>,
    nullifier: [u8; 32],
    root: [u8; 32],
    amount: u64,
    public_inputs: &Vec<String>,
    delegated_accepts: bool,
) -> (r: Result<WithdrawReceipt, ErrorCode>)
    ensures
        withdrawn(
            *old(ctx),
            *final(ctx),
            proof_outcome(
                old(ctx).admin.verifier_mode,
                old(ctx).admin.verifier_magic@,
                old(ctx).verifier_program.is_some(),
                delegated_accepts,
                proof_bytes@,
                structural_outcome(json_object_members(proof_bytes@), texts(public_inputs@)),
            ),
            nullifier@,
            root@,
            amount,
            r,
        ),
{
    match check_gates(ctx, &root) {
        Ok(_) => {},
        Err(e) => {
            return Err(e);
        },
    }
    let verdict = check_proof(
        &ctx.admin,
        &ctx.verifier_program,
        delegated_accepts,
        &proof_bytes,
        public_inputs,
    );
    finish(ctx, verdict, nullifier, root, amount)
}

/// A paused pool refuses every withdrawal with `ContractPaused`, whatever
/// else holds of it.
pub proof fn law_pause_precedence(
    ctx: Withdraw,
    verdict: Result<(), ErrorCode>,
    nullifier: Seq<u8>,
    root: Seq<u8>,
)
    requires
        ctx.admin.paused,
    ensures
        withdraw_error(ctx, verdict, nullifier, root) == Some(ErrorCode::ContractPaused),
{
}

/// A pool that runs refuses every withdrawal to a recipient on the deny
/// list with `DenyListBlocked`, whatever the root, the proof and the
/// nullifier are.
pub proof fn law_deny_list_precedence(
    ctx: Withdraw,
    verdict: Result<(), ErrorCode>,
    nullifier: Seq<u8>,
    root: Seq<u8>,
)
    requires
        !ctx.admin.paused,
        ctx.admin.denies(ctx.recipient_token_account.owner@),
    ensures
        withdraw_error(ctx, verdict, nullifier, root) == Some(ErrorCode::DenyListBlocked),
{
}

/// A pool that runs refuses every withdrawal to a recipient it admits
/// against a root that is not its own with `RootMismatch`, whatever the proof
/// and the nullifier are.
pub proof fn law_root_gating(
    ctx: Withdraw,
    verdict: Result<(), ErrorCode>,
    nullifier: Seq<u8>,
    root: Seq<u8>,
)
    requires
        !ctx.admin.paused,
        !ctx.admin.denies(ctx.recipient_token_account.owner@),
        root != ctx.tree_state.root@,
    ensures
        withdraw_error(ctx, verdict, nullifier, root) == Some(ErrorCode::RootMismatch),
{
}

/// A withdrawal that passes the gates with a proof that is accepted, and
/// presents a chunk that is not the nullifier's own, fails with
/// `NullifierAlreadyUsed`, as it does for a nullifier that is spent.
pub proof fn law_chunk_mismatch_as_spent(ctx: Withdraw, nullifier: Seq<u8>, root: Seq<u8>)
    requires
        gate_error(ctx, root).is_none(),
        ctx.nullifier_chunk.index != chunk_index_of(nullifier) || ctx.nullifier_chunk.is_spent(
            bit_index_of(nullifier) as u8,
        ),
    ensures
        withdraw_error(ctx, Ok(()), nullifier, root) == Some(ErrorCode::NullifierAlreadyUsed),
{
}

/// A withdrawal clears no bit: what was spent in the chunk before is spent
/// in it after, whether the withdrawal succeeds or fails.
pub proof fn law_spent_only_grows(
    before: Withdraw,
    after: Withdraw,
    verdict: Result<(), ErrorCode>,
    nullifier: Seq<u8>,
    root: Seq<u8>,
    amount: u64,
    r: Result<WithdrawReceipt, ErrorCode>,
)
    requires
        withdrawn(before, after, verdict, nullifier, root, amount, r),
    ensures
        after.nullifier_chunk.index == before.nullifier_chunk.index,
        before.nullifier_chunk.spent().subset_of(after.nullifier_chunk.spent()),
{
}

/// After one withdrawal with a nullifier has succeeded, no later one with
/// that nullifier does, as long as the nullifier's chunk has lost no bit
/// since: a later withdrawal that passes the gates with a proof that is
/// accepted fails with `NullifierAlreadyUsed`, and one that does not fails
/// before.
pub proof fn law_monotonic_spend(
    before: Withdraw,
    after: Withdraw,
    verdict: Result<(), ErrorCode>,
    nullifier: Seq<u8>,
    root: Seq<u8>,
    amount: u64,
    r: Result<WithdrawReceipt, ErrorCode>,
    later: Withdraw,
    later_verdict: Result<(), ErrorCode>,
    later_root: Seq<u8>,
)
    requires
        withdrawn(before, after, verdict, nullifier, root, amount, r),
        r is Ok,
        later.nullifier_chunk.index == after.nullifier_chunk.index
            ==> after.nullifier_chunk.spent().subset_of(later.nullifier_chunk.spent()),
    ensures
        withdraw_error(later, later_verdict, nullifier, later_root).is_some(),
        gate_error(later, later_root).is_none() && later_verdict is Ok ==> withdraw_error(
            later,
            later_verdict,
            nullifier,
            later_root,
        ) == Some(ErrorCode::NullifierAlreadyUsed),
{
    let bit = bit_index_of(nullifier) as u8;
    assert(after.nullifier_chunk.spent().contains(bit));
    if later.nullifier_chunk.index == after.nullifier_chunk.index {
        assert(later.nullifier_chunk.spent().contains(bit));
    }
}

} // verus!
