//! The operations that change the pool's policy. Each is the authority's
//! alone: from any other caller it fails with `Unauthorized` and changes
//! nothing.

use vstd::prelude::*;
use crate::errors::ErrorCode;
use crate::keys::Pubkey;
use crate::registry::NullifierRegistry;
use crate::state::{
    listed, no_duplicates, Admin, InitNullifierChunk, Initialize, ModifyDenyList, NullifierSet,
    SetPause, SetVerifierMode, TreeState, UpdateRoot, Vault,
};

verus! {

/// `list` without every entry that is `who`.
pub open spec fn without(list: Seq<Pubkey>, who: Seq<u8>) -> Seq<Pubkey> {
    list.filter(|k: Pubkey| k@ != who)
}

/// The bytes of an optional byte string; none is the empty string.
pub open spec fn bytes_or_empty(bytes: Option<Vec<u8>>) -> Seq<u8> {
    match bytes {
        Some(b) => b@,
        None => Seq::empty(),
    }
}

/// Sets up the pool: the policy with `admin` as its authority, an empty
/// deny list, the verifier off and the pool not paused; the vault; a root of
/// zeros; and no nullifiers.
pub fn initialize(
    ctx: &mut Initialize,
    admin: Pubkey,
    vault_token_account: Pubkey,
    vault_bump: u8,
    tree_bump: u8,
    nullifier_bump: u8,
    admin_bump: u8,
) -> (r: Result<(), ErrorCode>)
    ensures
        r.is_ok(),
        final(ctx).admin.authority == admin,
        final(ctx).admin.deny_list@.len() == 0,
        final(ctx).admin.verifier_mode == 0,
        final(ctx).admin.verifier_magic@.len() == 0,
        !final(ctx).admin.paused,
        final(ctx).admin.bump == admin_bump,
        final(ctx).vault.token_account == vault_token_account,
        final(ctx).vault.bump == vault_bump,
        final(ctx).tree_state.root@ == Seq::new(32, |i: int| 0u8),
        final(ctx).tree_state.bump == tree_bump,
        final(ctx).nullifier_set.nullifiers@.len() == 0,
        final(ctx).nullifier_set.bump == nullifier_bump,
        final(ctx).payer == old(ctx).payer,
        forall|who: Seq<u8>| !final(ctx).admin.denies(who),
{
    ctx.admin = Admin {
        authority: admin,
        deny_list: Vec::new(),
        verifier_mode: 0,
        verifier_magic: Vec::new(),
        paused: false,
        bump: admin_bump,
    };
    ctx.vault = Vault { token_account: vault_token_account, bump: vault_bump };
    ctx.tree_state = TreeState { root: [0u8;32], bump: tree_bump };
    ctx.nullifier_set = NullifierSet { nullifiers: Vec::new(), bump: nullifier_bump };
    assert(ctx.tree_state.root@ =~= Seq::new(32, |i: int| 0u8));
    Ok(())
}

/// Selects the verifier: sets the mode, and the magic bytes to `magic`, or
/// to nothing where none are given.
pub fn set_verifier_mode(ctx: &mut SetVerifierMode, mode: u8, magic: Option<Vec<u8>>) -> (r: Result<
    (),
    ErrorCode,
>)
    ensures
        r.is_ok() == old(ctx).admin.rules(old(ctx).authority@),
        r.is_err() ==> r == Err::<(), ErrorCode>(ErrorCode::Unauthorized) && *final(ctx) == *old(ctx),
        r.is_ok() ==> final(ctx).admin.verifier_mode == mode && final(ctx).admin.verifier_magic@
            == bytes_or_empty(magic) && final(ctx).admin.authority == old(ctx).admin.authority
            && final(ctx).admin.deny_list == old(ctx).admin.deny_list && final(ctx).admin.paused
            == old(ctx).admin.paused && final(ctx).admin.bump == old(ctx).admin.bump && final(ctx).authority == old(ctx).authority && final(ctx).verifier_program == old(ctx).verifier_program,
{
    if !ctx.admin.is_authority(&ctx.authority) {
        return Err(ErrorCode::Unauthorized);
    }
    ctx.admin.verifier_mode = mode;
    ctx.admin.verifier_magic = match magic {
        Some(bytes) => bytes,
        None => Vec::new(),
    };
    Ok(())
}

/// Puts `addr` on the deny list. Putting it there again changes nothing.
pub fn add_to_denylist(ctx: &mut ModifyDenyList, addr: Pubkey) -> (r: Result<(), ErrorCode>)
    ensures
        r.is_ok() == old(ctx).admin.rules(old(ctx).authority@),
        r.is_err() ==> r == Err::<(), ErrorCode>(ErrorCode::Unauthorized) && *final(ctx) == *old(ctx),
        r.is_ok() ==> final(ctx).admin.deny_list@ == (if old(ctx).admin.denies(addr@) {
            old(ctx).admin.deny_list@
        } else {
            old(ctx).admin.deny_list@.push(addr)
        }),
        r.is_ok() ==> forall|who: Seq<u8>| #[trigger]
            final(ctx).admin.denies(who) == (old(ctx).admin.denies(who) || who == addr@),
        r.is_ok() && no_duplicates(old(ctx).admin.deny_list@) ==> no_duplicates(
            final(ctx).admin.deny_list@,
        ),
        final(ctx).admin.authority == old(ctx).admin.authority,
        final(ctx).admin.verifier_mode == old(ctx).admin.verifier_mode,
        final(ctx).admin.verifier_magic == old(ctx).admin.verifier_magic,
        final(ctx).admin.paused == old(ctx).admin.paused,
        final(ctx).admin.bump == old(ctx).admin.bump,
        final(ctx).authority == old(ctx).authority,
{
    if !ctx.admin.is_authority(&ctx.authority) {
        return Err(ErrorCode::Unauthorized);
    }
    if !ctx.admin.is_denied(&addr) {
        ctx.admin.deny_list.push(addr);
        proof {
            let before = old(ctx).admin.deny_list@;
            let after = ctx.admin.deny_list@;
            assert(after[before.len() as int]@ == addr@);
            assert forall|who: Seq<u8>| #[trigger]
                listed(after, who) == (listed(before, who) || who == addr@) by {
                if listed(before, who) {
                    let i = choose|i: int| 0 <= i < before.len() && #[trigger] before[i]@ == who;
                    assert(after[i]@ == who);
                }
                if listed(after, who) {
                    let i = choose|i: int| 0 <= i < after.len() && #[trigger] after[i]@ == who;
                    if i < before.len() {
                        assert(before[i]@ == who);
                    }
                }
            }
            if no_duplicates(before) {
                assert forall|i: int, j: int| 0 <= i < j < after.len() implies after[i]@
                    != after[j]@ by {
                    if j == before.len() {
                        assert(before[i]@ != addr@);
                    }
                }
            }
        }
    }
    Ok(())
}

/// Takes `addr` off the deny list, wherever it stands there. Taking it off
/// when it is not there changes nothing.
pub fn remove_from_denylist(ctx: &mut ModifyDenyList, addr: Pubkey) -> (r: Result<(), ErrorCode>)
    ensures
        r.is_ok() == old(ctx).admin.rules(old(ctx).authority@),
        r.is_err() ==> r == Err::<(), ErrorCode>(ErrorCode::Unauthorized) && *final(ctx) == *old(ctx),
        r.is_ok() ==> final(ctx).admin.deny_list@ == without(old(ctx).admin.deny_list@, addr@),
        r.is_ok() ==> forall|who: Seq<u8>| #[trigger]
            final(ctx).admin.denies(who) == (old(ctx).admin.denies(who) && who != addr@),
        r.is_ok() && no_duplicates(old(ctx).admin.deny_list@) ==> no_duplicates(
            final(ctx).admin.deny_list@,
        ),
        final(ctx).admin.authority == old(ctx).admin.authority,
        final(ctx).admin.verifier_mode == old(ctx).admin.verifier_mode,
        final(ctx).admin.verifier_magic == old(ctx).admin.verifier_magic,
        final(ctx).admin.paused == old(ctx).admin.paused,
        final(ctx).admin.bump == old(ctx).admin.bump,
        final(ctx).authority == old(ctx).authority,
{
    if !ctx.admin.is_authority(&ctx.authority) {
        return Err(ErrorCode::Unauthorized);
    }
    let ghost before = ctx.admin.deny_list@;
    let ghost keep = |k: Pubkey| k@ != addr@;
    let mut kept: Vec<Pubkey> = Vec::new();
    // For each kept entry, the place it came from.
    let ghost mut origin: Seq<int> = Seq::empty();
    let mut i: usize = 0;
    proof {
        reveal(Seq::filter);
        assert(before.subrange(0, 0).filter(keep) =~= kept@);
    }
    while i < ctx.admin.deny_list.len()
        invariant
            i <= before.len(),
            before == ctx.admin.deny_list@,
            *ctx == *old(ctx),
            keep == (|k: Pubkey| k@ != addr@),
            kept@ == before.subrange(0, i as int).filter(keep),
            origin.len() == kept@.len(),
            forall|a: int| 0 <= a < origin.len() ==> 0 <= #[trigger] origin[a] < i && before[origin[a]]
                == kept@[a],
            forall|a: int, b: int| 0 <= a < b < origin.len() ==> origin[a] < origin[b],
            forall|j: int| 0 <= j < i && before[j]@ != addr@ ==> exists|a: int|
                0 <= a < origin.len() && #[trigger] origin[a] == j,
            forall|a: int| 0 <= a < kept@.len() ==> (#[trigger] kept@[a])@ != addr@,
        decreases before.len() - i,
    {
        let entry: Pubkey = ctx.admin.deny_list[i];
        proof {
            reveal(Seq::filter);
            assert(before.subrange(0, i + 1).drop_last() =~= before.subrange(0, i as int));
            assert(before.subrange(0, i + 1).last() == entry);
        }
        if !entry.same(&addr) {
            kept.push(entry);
            proof {
                let earlier = origin;
                origin = origin.push(i as int);
                assert forall|j: int| 0 <= j < i + 1 && before[j]@ != addr@ implies exists|a: int|
                    0 <= a < origin.len() && #[trigger] origin[a] == j by {
                    if j < i {
                        let a = choose|a: int| 0 <= a < earlier.len() && #[trigger] earlier[a] == j;
                        assert(origin[a] == j);
                    } else {
                        assert(origin[earlier.len() as int] == j);
                    }
                }
            }
        }
        i += 1;
    }
    proof {
        assert(before.subrange(0, i as int) =~= before);
        assert forall|who: Seq<u8>| #[trigger]
            listed(kept@, who) == (listed(before, who) && who != addr@) by {
            if listed(kept@, who) {
                let a = choose|a: int| 0 <= a < kept@.len() && #[trigger] kept@[a]@ == who;
                assert(before[origin[a]]@ == who);
            }
            if listed(before, who) && who != addr@ {
                let j = choose|j: int| 0 <= j < before.len() && #[trigger] before[j]@ == who;
                let a = choose|a: int| 0 <= a < origin.len() && #[trigger] origin[a] == j;
                assert(kept@[a]@ == who);
            }
        }
        if no_duplicates(before) {
            assert forall|a: int, b: int| 0 <= a < b < kept@.len() implies kept@[a]@
                != kept@[b]@ by {
                assert(before[origin[a]] == kept@[a]);
                assert(before[origin[b]] == kept@[b]);
            }
        }
    }
    ctx.admin.deny_list = kept;
    Ok(())
}

/// Pauses the pool or lets it run.
pub fn set_pause(ctx: &mut SetPause, paused: bool) -> (r: Result<(), ErrorCode>)
    ensures
        r.is_ok() == old(ctx).admin.rules(old(ctx).authority@),
        r.is_err() ==> r == Err::<(), ErrorCode>(ErrorCode::Unauthorized) && *final(ctx) == *old(ctx),
        r.is_ok() ==> final(ctx).admin.paused == paused,
        final(ctx).admin.authority == old(ctx).admin.authority,
        final(ctx).admin.deny_list == old(ctx).admin.deny_list,
        final(ctx).admin.verifier_mode == old(ctx).admin.verifier_mode,
        final(ctx).admin.verifier_magic == old(ctx).admin.verifier_magic,
        final(ctx).admin.bump == old(ctx).admin.bump,
        final(ctx).authority == old(ctx).authority,
{
    if !ctx.admin.is_authority(&ctx.authority) {
        return Err(ErrorCode::Unauthorized);
    }
    ctx.admin.paused = paused;
    Ok(())
}

/// Creates the nullifier chunk `index` in the registry, with no nullifier
/// spent. A chunk that exists is not created again.
pub fn init_nullifier_chunk(ctx: &mut InitNullifierChunk, index: u64) -> (r: Result<(), ErrorCode>)
    requires
        old(ctx).registry.wf(),
    ensures
        final(ctx).registry.wf(),
        final(ctx).admin == old(ctx).admin,
        final(ctx).authority == old(ctx).authority,
        final(ctx).payer == old(ctx).payer,
        r == (if !old(ctx).admin.rules(old(ctx).authority@) {
            Err::<(), ErrorCode>(ErrorCode::Unauthorized)
        } else if old(ctx).registry.has_chunk(index) {
            Err::<(), ErrorCode>(ErrorCode::ChunkAlreadyExists)
        } else {
            Ok::<(), ErrorCode>(())
        }),
        r.is_err() ==> *final(ctx) == *old(ctx),
        r.is_ok() ==> final(ctx).registry.chunks@.len() == old(ctx).registry.chunks@.len() + 1
            && final(ctx).registry.chunks@.drop_last() == old(ctx).registry.chunks@ && final(ctx).registry.chunks@.last().is_fresh(index),
        r.is_ok() ==> forall|k: u64| #[trigger]
            final(ctx).registry.has_chunk(k) == (old(ctx).registry.has_chunk(k) || k == index),
        r.is_ok() ==> forall|k: u64, bit: u8| #[trigger]
            final(ctx).registry.is_spent(k, bit) == old(ctx).registry.is_spent(k, bit),
{
    if !ctx.admin.is_authority(&ctx.authority) {
        return Err(ErrorCode::Unauthorized);
    }
    match ctx.registry.create_chunk(index) {
        Ok(_) => Ok(()),
        Err(_) => Err(ErrorCode::ChunkAlreadyExists),
    }
}

/// Sets the root of the commitment tree to `new_root`.
pub fn update_root(ctx: &mut UpdateRoot, new_root: [u8; 32]) -> (r: Result<(), ErrorCode>)
    ensures
        r.is_ok() == old(ctx).admin.rules(old(ctx).authority@),
        r.is_err() ==> r == Err::<(), ErrorCode>(ErrorCode::Unauthorized) && *final(ctx) == *old(ctx),
        r.is_ok() ==> final(ctx).tree_state.root == new_root,
        final(ctx).tree_state.bump == old(ctx).tree_state.bump,
        final(ctx).admin == old(ctx).admin,
        final(ctx).authority == old(ctx).authority,
{
    if !ctx.admin.is_authority(&ctx.authority) {
        return Err(ErrorCode::Unauthorized);
    }
    ctx.tree_state.root = new_root;
    Ok(())
}

} // verus!
