//! The accounts that an instruction carries.

use crate::pubkey::Pubkey;
use vstd::prelude::*;

verus! {

/// An account that an instruction reads or writes.
#[derive(Debug, Clone, Copy, PartialEq, Eq)]
pub struct AccountMeta {
    pub pubkey: Pubkey,
    /// Whether the transaction must hold a signature of the account.
    pub is_signer: bool,
    /// Whether the instruction may change the account.
    pub is_writable: bool,
}

impl AccountMeta {
    /// The meta of an account that is neither a signer nor written.
    pub open spec fn plain(pubkey: Pubkey) -> AccountMeta {
        AccountMeta { pubkey, is_signer: false, is_writable: false }
    }
}

/// Calls `solana_instruction::AccountMeta::new_readonly`, which keeps the address
/// and the signer flag that it is given and marks the account as not writable. The
/// address goes in and comes out by `solana_pubkey::Pubkey::new_from_array` and
/// `to_bytes`, which keep its bytes.
#[verifier::external_body]
pub(crate) fn new_readonly(pubkey: &Pubkey, is_signer: bool) -> (meta: AccountMeta)
    ensures
        meta.pubkey == *pubkey,
        meta.is_signer == is_signer,
        !meta.is_writable,
{
    let address = solana_pubkey::Pubkey::new_from_array(*pubkey);
    let meta = solana_instruction::AccountMeta::new_readonly(address, is_signer);
    AccountMeta {
        pubkey: meta.pubkey.to_bytes(),
        is_signer: meta.is_signer,
        is_writable: meta.is_writable,
    }
}

/// How many accounts there are to pair up: the shortest of the three lists counts.
pub open spec fn paired_len(
    keys: Seq<Pubkey>,
    signer: Seq<bool>,
    writable: Seq<bool>,
) -> nat {
    let keyed = if keys.len() <= signer.len() {
        keys.len()
    } else {
        signer.len()
    };
    if keyed <= writable.len() {
        keyed
    } else {
        writable.len()
    }
}

/// The metas of the paired up accounts: never signers, and writable as told.
pub open spec fn paired_metas(
    keys: Seq<Pubkey>,
    signer: Seq<bool>,
    writable: Seq<bool>,
) -> Seq<AccountMeta> {
    Seq::new(
        paired_len(keys, signer, writable),
        |i: int|
            AccountMeta { pubkey: keys[i], is_signer: false, is_writable: writable[i] },
    )
}

/// Pairs up the addresses of an instruction's accounts with its flags.
///
/// No account is marked as a signer, whatever its flag says: the router's own
/// instruction elevates the signer, or uses shared accounts that it elevates
/// before it invokes the pool's program. Of lists of unequal length, the rest of
/// the longer ones is left out.
pub fn keys_signer_writable_to_metas(
    keys: &[Pubkey],
    signer: &[bool],
    writable: &[bool],
) -> (metas: Vec<AccountMeta>)
    ensures
        metas@ == paired_metas(keys@, signer@, writable@),
        metas@.len() <= keys@.len(),
        metas@.len() <= signer@.len(),
        metas@.len() <= writable@.len(),
        metas@.len() == keys@.len() || metas@.len() == signer@.len() || metas@.len()
            == writable@.len(),
        forall|i: int|
            0 <= i < metas@.len() ==> (#[trigger] metas@[i]).pubkey == keys@[i]
                && !metas@[i].is_signer && metas@[i].is_writable == writable@[i],
{
    let mut metas: Vec<AccountMeta> = Vec::new();
    let mut i: usize = 0;
    while i < keys.len() && i < signer.len() && i < writable.len()
        invariant
            i <= paired_len(keys@, signer@, writable@),
            metas@ == paired_metas(keys@, signer@, writable@).take(i as int),
        decreases keys@.len() - i,
    {
        metas.push(AccountMeta { pubkey: keys[i], is_signer: false, is_writable: writable[i] });
        i += 1;
    }
    assert(i == paired_len(keys@, signer@, writable@));
    metas
}

/// The meta of an account that is neither a signer nor written keeps its address.
pub proof fn law_plain_meta_is_only_an_address(pubkey: Pubkey)
    ensures
        AccountMeta::plain(pubkey).pubkey == pubkey,
        !AccountMeta::plain(pubkey).is_signer,
        !AccountMeta::plain(pubkey).is_writable,
{
}

/// Three lists of `n` or more, of which one has just `n`, give `n` metas. Each keeps the
/// address and the writable flag of its own place, and no signer flag counts.
pub proof fn law_accounts_are_paired_place_by_place(
    keys: Seq<Pubkey>,
    signer: Seq<bool>,
    writable: Seq<bool>,
    n: nat,
)
    requires
        n <= keys.len(),
        n <= signer.len(),
        n <= writable.len(),
        n == keys.len() || n == signer.len() || n == writable.len(),
    ensures
        paired_len(keys, signer, writable) == n,
        paired_metas(keys, signer, writable).len() == n,
        forall|i: int|
            0 <= i < n ==> {
                let meta = #[trigger] paired_metas(keys, signer, writable)[i];
                meta.pubkey == keys[i] && meta.is_writable == writable[i] && !meta.is_signer
            },
{
}

} // verus!
