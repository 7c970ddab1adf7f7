use vstd::prelude::*;
use crate::account::{AccountView, Pubkey, keys_equal, lemma_key_view};
use crate::error::EscrowError;
use crate::instructions::{Action, Plan, signs_as};
use crate::state::{
    ESCROW_LEN,
    Escrow,
    escrow_bytes,
    lemma_escrow_bytes_injective,
    lemma_escrow_fields,
    stored_maker,
    stored_mint_a,
};
use crate::token::{MINT_DECIMALS_AT, MINT_LEN, holding_of, is_holding, mint_decimals};

verus! {

/// Position of the maker, who signs and gets the deposit back.
pub const REFUND_MAKER: usize = 0;
/// Position of the mint of asset A.
pub const REFUND_MINT_A: usize = 1;
/// Position of the maker's holding account of asset A.
pub const REFUND_MAKER_ATA_A: usize = 2;
/// Position of the escrow record.
pub const REFUND_ESCROW: usize = 3;
/// Position of the vault.
pub const REFUND_VAULT: usize = 4;
/// Number of accounts that cancel names.
pub const REFUND_ACCOUNTS: usize = 8;

/// Why cancel refuses a call, in the order the checks are made; `None`
/// where it accepts.
pub open spec fn refund_refusal(
    accounts: Seq<AccountView>,
    program_id: Pubkey,
    token_program: Pubkey,
) -> Option<EscrowError> {
    if accounts.len() != REFUND_ACCOUNTS {
        Some(EscrowError::NotEnoughAccountKeys)
    } else if !accounts[0].is_signer {
        Some(EscrowError::MissingRequiredSignature)
    } else if accounts[3].data@.len() != ESCROW_LEN {
        Some(EscrowError::InvalidAccountData)
    } else if accounts[3].owner != program_id {
        Some(EscrowError::InvalidAccountOwner)
    } else if accounts[1].owner != token_program {
        Some(EscrowError::InvalidAccountOwner)
    } else if !is_holding(accounts[4], token_program, accounts[1].key, accounts[3].key) {
        Some(EscrowError::InvalidAccountOwner)
    } else if accounts[0].key@ != stored_maker(accounts[3].data@) {
        Some(EscrowError::IncorrectAuthority)
    } else if !is_holding(accounts[2], token_program, accounts[1].key, accounts[0].key) {
        Some(EscrowError::InvalidAccountOwner)
    } else if accounts[1].key@ != stored_mint_a(accounts[3].data@) {
        Some(EscrowError::InvalidAccountData)
    } else if accounts[1].data@.len() != MINT_LEN {
        Some(EscrowError::InvalidAccountData)
    } else {
        None
    }
}

/// The plan of an accepted cancel of record `e`: move `receive_amount` of A
/// from the vault back to the maker, then close the vault and the record
/// into the maker.
pub open spec fn is_refund_plan(p: Plan, accounts: Seq<AccountView>, e: Escrow) -> bool {
    &&& signs_as(p, e.maker, e.seed, e.bump)
    &&& p.actions@.len() == 3
    &&& p.actions@[0] == Action::TransferChecked {
        from: 4,
        mint: 1,
        to: 2,
        authority: 3,
        amount: e.receive_amount,
        decimals: accounts[1].data@[MINT_DECIMALS_AT as int],
    }
    &&& p.actions@[1] == Action::CloseAccount { account: 4, destination: 0, authority: 3 }
    &&& p.actions@[2] == Action::CloseProgramAccount { account: 3, destination: 0 }
}

/// Cancels an escrow: checks the maker's signature, the record, that the
/// vault is the record's holding of asset A, that the signer is the stored
/// maker and that the deposit goes to the maker's own holding of asset A,
/// and plans the return of
/// the deposit and the closing of vault and record.
pub fn process_refund_instructions(
    accounts: &[AccountView],
    _data: &[u8],
    program_id: &Pubkey,
    token_program: &Pubkey,
) -> (r: Result<Plan, EscrowError>)
    ensures
        refund_refusal(accounts@, *program_id, *token_program) matches Some(err) ==> r == Err::<
            Plan,
            EscrowError,
        >(err),
        refund_refusal(accounts@, *program_id, *token_program) is None ==> (r matches Ok(p)
            && forall|e: Escrow| #[trigger]
                escrow_bytes(e) == accounts@[3].data@ ==> is_refund_plan(p, accounts@, e)),
        refund_refusal(accounts@, *program_id, *token_program) is None ==> exists|e: Escrow|
            #[trigger] escrow_bytes(e) == accounts@[3].data@,
{
    if accounts.len() != REFUND_ACCOUNTS {
        return Err(EscrowError::NotEnoughAccountKeys);
    }
    let maker_acc = &accounts[REFUND_MAKER];
    let mint_a_acc = &accounts[REFUND_MINT_A];
    let escrow_acc = &accounts[REFUND_ESCROW];
    let escrow_vault = &accounts[REFUND_VAULT];
    if !maker_acc.is_signer {
        return Err(EscrowError::MissingRequiredSignature);
    }
    let escrow_state = Escrow::from_account_info_readable(escrow_acc, program_id)?;
    proof {
        lemma_escrow_fields(escrow_state);
        lemma_key_view(maker_acc.key, escrow_state.maker);
        lemma_key_view(mint_a_acc.key, escrow_state.mint_a);
    }
    if !keys_equal(&mint_a_acc.owner, token_program) {
        return Err(EscrowError::InvalidAccountOwner);
    }
    if !holding_of(escrow_vault, token_program, &mint_a_acc.key, &escrow_acc.key) {
        return Err(EscrowError::InvalidAccountOwner);
    }
    if !keys_equal(&maker_acc.key, &escrow_state.maker) {
        return Err(EscrowError::IncorrectAuthority);
    }
    if !holding_of(&accounts[REFUND_MAKER_ATA_A], token_program, &mint_a_acc.key, &maker_acc.key) {
        return Err(EscrowError::InvalidAccountOwner);
    }
    if !keys_equal(&mint_a_acc.key, &escrow_state.mint_a) {
        return Err(EscrowError::InvalidAccountData);
    }
    let decimals = mint_decimals(mint_a_acc, token_program)?;
    let signer_seeds = Escrow::signer_seeds(&maker_acc.key, escrow_state.seed, escrow_state.bump);

    let mut actions: Vec<Action> = Vec::new();
    actions.push(
        Action::TransferChecked {
            from: REFUND_VAULT,
            mint: REFUND_MINT_A,
            to: REFUND_MAKER_ATA_A,
            authority: REFUND_ESCROW,
            amount: escrow_state.receive_amount,
            decimals: decimals,
        },
    );
    actions.push(
        Action::CloseAccount {
            account: REFUND_VAULT,
            destination: REFUND_MAKER,
            authority: REFUND_ESCROW,
        },
    );
    actions.push(Action::CloseProgramAccount { account: REFUND_ESCROW, destination: REFUND_MAKER });
    let p = Plan { signer_seeds, actions };
    proof {
        assert forall|e: Escrow| #[trigger]
            escrow_bytes(e) == accounts@[3].data@ implies is_refund_plan(p, accounts@, e) by {
            lemma_escrow_bytes_injective(e, escrow_state);
        }
        assert(escrow_bytes(escrow_state) == accounts@[3].data@);
    }
    Ok(p)
}

} // verus!
