use vstd::prelude::*;
use crate::account::{AccountView, Pubkey, keys_equal, lemma_key_view};
use crate::error::EscrowError;
use crate::state::read_key;

verus! {

/// Length of a mint account of the token program.
pub const MINT_LEN: usize = 82;

/// Offset of the decimals byte in a mint account.
pub const MINT_DECIMALS_AT: usize = 44;

/// Length of a holding account of the token program.
pub const TOKEN_ACCOUNT_LEN: usize = 165;

/// Offset of the asset's identifier in a holding account.
pub const TOKEN_ACCOUNT_MINT_AT: usize = 0;

/// Offset of the holder's identifier in a holding account.
pub const TOKEN_ACCOUNT_OWNER_AT: usize = 32;

/// Whether an account is a mint of the token program.
pub open spec fn is_mint(acc: AccountView, token_program: Pubkey) -> bool {
    acc.owner == token_program && acc.data@.len() == MINT_LEN
}

/// Whether an account is a holding account of the token program, of asset
/// `mint`, held by `holder`.
pub open spec fn is_holding(acc: AccountView, token_program: Pubkey, mint: Pubkey, holder: Pubkey) -> bool {
    &&& acc.owner == token_program
    &&& acc.data@.len() == TOKEN_ACCOUNT_LEN
    &&& acc.data@.subrange(TOKEN_ACCOUNT_MINT_AT as int, TOKEN_ACCOUNT_MINT_AT + 32) == mint@
    &&& acc.data@.subrange(
        TOKEN_ACCOUNT_OWNER_AT as int,
        TOKEN_ACCOUNT_OWNER_AT + 32,
    ) == holder@
}

/// The decimals of a mint: refused unless the account is owned by the token
/// program and has a mint's length.
pub fn mint_decimals(mint: &AccountView, token_program: &Pubkey) -> (r: Result<u8, EscrowError>)
    ensures
        mint.owner != *token_program ==> r == Err::<u8, EscrowError>(
            EscrowError::InvalidAccountOwner,
        ),
        mint.owner == *token_program && mint.data@.len() != MINT_LEN ==> r == Err::<
            u8,
            EscrowError,
        >(EscrowError::InvalidAccountData),
        is_mint(*mint, *token_program) ==> r == Ok::<u8, EscrowError>(
            mint.data@[MINT_DECIMALS_AT as int],
        ),
{
    if !keys_equal(&mint.owner, token_program) {
        return Err(EscrowError::InvalidAccountOwner);
    }
    if mint.data.len() != MINT_LEN {
        return Err(EscrowError::InvalidAccountData);
    }
    Ok(mint.data[MINT_DECIMALS_AT])
}

/// Whether an account is a holding account of the token program, of asset
/// `mint`, held by `holder`.
pub fn holding_of(acc: &AccountView, token_program: &Pubkey, mint: &Pubkey, holder: &Pubkey) -> (r:
    bool)
    ensures
        r == is_holding(*acc, *token_program, *mint, *holder),
{
    if !keys_equal(&acc.owner, token_program) || acc.data.len() != TOKEN_ACCOUNT_LEN {
        return false;
    }
    let m = read_key(acc.data.as_slice(), TOKEN_ACCOUNT_MINT_AT);
    let k = read_key(acc.data.as_slice(), TOKEN_ACCOUNT_OWNER_AT);
    proof {
        lemma_key_view(m, *mint);
        lemma_key_view(k, *holder);
    }
    keys_equal(&m, mint) && keys_equal(&k, holder)
}

} // verus!
