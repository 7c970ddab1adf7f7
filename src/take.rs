use vstd::prelude::*;
use crate::account::{AccountView, Pubkey, keys_equal, lemma_key_view};
use crate::error::EscrowError;
use crate::instructions::{Action, Plan, signs_as};
use crate::state::{
    ESCROW_LEN,
    Escrow,
    escrow_bytes,
    lemma_escrow_bytes_injective,
    lemma_escrow_fields,
    stored_maker,
    stored_mint_a,
    stored_mint_b,
};
use crate::token::{MINT_DECIMALS_AT, MINT_LEN, holding_of, is_holding, mint_decimals};

verus! {

/// Position of the taker, who signs.
pub const TAKE_TAKER: usize = 0;
/// Position of the maker, who receives asset B and the deposits.
pub const TAKE_MAKER: usize = 1;
/// Position of the mint of asset A.
pub const TAKE_MINT_A: usize = 2;
/// Position of the mint of asset B.
pub const TAKE_MINT_B: usize = 3;
/// Position of the taker's holding account of asset A.
pub const TAKE_TAKER_ATA_A: usize = 4;
/// Position of the taker's holding account of asset B.
pub const TAKE_TAKER_ATA_B: usize = 5;
/// Position of the maker's holding account of asset B.
pub const TAKE_MAKER_ATA_B: usize = 6;
/// Position of the escrow record.
pub const TAKE_ESCROW: usize = 7;
/// Position of the vault.
pub const TAKE_VAULT: usize = 8;
/// Position of the rent sysvar.
pub const TAKE_RENT: usize = 9;
/// Number of accounts that fulfil names.
pub const TAKE_ACCOUNTS: usize = 12;

/// Why fulfil refuses a call, in the order the checks are made; `None`
/// where it accepts.
pub open spec fn take_refusal(
    accounts: Seq<AccountView>,
    program_id: Pubkey,
    token_program: Pubkey,
) -> Option<EscrowError> {
    if accounts.len() != TAKE_ACCOUNTS {
        Some(EscrowError::NotEnoughAccountKeys)
    } else if !accounts[0].is_signer {
        Some(EscrowError::MissingRequiredSignature)
    } else if accounts[7].data@.len() != ESCROW_LEN {
        Some(EscrowError::InvalidAccountData)
    } else if accounts[7].owner != program_id {
        Some(EscrowError::InvalidAccountOwner)
    } else if accounts[1].key@ != stored_maker(accounts[7].data@) {
        Some(EscrowError::IncorrectAuthority)
    } else if accounts[2].owner != token_program || accounts[3].owner != token_program {
        Some(EscrowError::InvalidAccountOwner)
    } else if accounts[2].key@ != stored_mint_a(accounts[7].data@) || accounts[3].key@
        != stored_mint_b(accounts[7].data@) {
        Some(EscrowError::InvalidAccountData)
    } else if accounts[2].data@.len() != MINT_LEN || accounts[3].data@.len() != MINT_LEN {
        Some(EscrowError::InvalidAccountData)
    } else if !is_holding(accounts[8], token_program, accounts[2].key, accounts[7].key) {
        Some(EscrowError::InvalidAccountOwner)
    } else if accounts[6].data@.len() != 0 && !is_holding(
        accounts[6],
        token_program,
        accounts[3].key,
        accounts[1].key,
    ) {
        Some(EscrowError::InvalidAccountOwner)
    } else {
        None
    }
}

/// The plan of an accepted fulfil of record `e`: open the maker's B account
/// and the taker's A account where they are not open yet, move
/// `receive_amount` of A from the vault to the taker and of B from the
/// taker to the maker, then close the vault and the record into the maker.
pub open spec fn is_take_plan(p: Plan, accounts: Seq<AccountView>, e: Escrow) -> bool {
    let open_maker_b = accounts[6].data@.len() == 0;
    let open_taker_a = accounts[4].data@.len() == 0;
    let k = (if open_maker_b { 1int } else { 0int }) + (if open_taker_a { 1int } else { 0int });
    &&& signs_as(p, e.maker, e.seed, e.bump)
    &&& p.actions@.len() == k + 4
    &&& open_maker_b ==> p.actions@[0] == Action::InitializeAccount {
        account: 6,
        mint: 3,
        owner: 1,
        rent_sysvar: 9,
    }
    &&& open_taker_a ==> p.actions@[k - 1] == Action::InitializeAccount {
        account: 4,
        mint: 2,
        owner: 0,
        rent_sysvar: 9,
    }
    &&& p.actions@[k] == Action::TransferChecked {
        from: 8,
        mint: 2,
        to: 4,
        authority: 7,
        amount: e.receive_amount,
        decimals: accounts[2].data@[MINT_DECIMALS_AT as int],
    }
    &&& p.actions@[k + 1] == Action::TransferChecked {
        from: 5,
        mint: 3,
        to: 6,
        authority: 0,
        amount: e.receive_amount,
        decimals: accounts[3].data@[MINT_DECIMALS_AT as int],
    }
    &&& p.actions@[k + 2] == Action::CloseAccount { account: 8, destination: 1, authority: 7 }
    &&& p.actions@[k + 3] == Action::CloseProgramAccount { account: 7, destination: 1 }
}

/// Fulfils an escrow: checks the taker's signature, the record, that the
/// maker supplied is the stored one, that the vault is the record's holding
/// of asset A and that an existing B account at the maker's position is the
/// maker's own holding of asset B, and plans the two legs of the swap and
/// the closing of vault and record.
pub fn process_take_instruction(
    accounts: &[AccountView],
    _data: &[u8],
    program_id: &Pubkey,
    token_program: &Pubkey,
) -> (r: Result<Plan, EscrowError>)
    ensures
        take_refusal(accounts@, *program_id, *token_program) matches Some(err) ==> r == Err::<
            Plan,
            EscrowError,
        >(err),
        take_refusal(accounts@, *program_id, *token_program) is None ==> (r matches Ok(p)
            && forall|e: Escrow| #[trigger]
                escrow_bytes(e) == accounts@[7].data@ ==> is_take_plan(p, accounts@, e)),
        take_refusal(accounts@, *program_id, *token_program) is None ==> exists|e: Escrow|
            #[trigger] escrow_bytes(e) == accounts@[7].data@,
{
    if accounts.len() != TAKE_ACCOUNTS {
        return Err(EscrowError::NotEnoughAccountKeys);
    }
    let taker_acc = &accounts[TAKE_TAKER];
    let maker_acc = &accounts[TAKE_MAKER];
    let mint_a_acc = &accounts[TAKE_MINT_A];
    let mint_b_acc = &accounts[TAKE_MINT_B];
    let escrow_acc = &accounts[TAKE_ESCROW];
    if !taker_acc.is_signer {
        return Err(EscrowError::MissingRequiredSignature);
    }
    let escrow_state = Escrow::from_account_info_readable(escrow_acc, program_id)?;
    proof {
        lemma_escrow_fields(escrow_state);
        lemma_key_view(maker_acc.key, escrow_state.maker);
        lemma_key_view(mint_a_acc.key, escrow_state.mint_a);
        lemma_key_view(mint_b_acc.key, escrow_state.mint_b);
    }
    if !keys_equal(&maker_acc.key, &escrow_state.maker) {
        return Err(EscrowError::IncorrectAuthority);
    }
    if !keys_equal(&mint_a_acc.owner, token_program) || !keys_equal(&mint_b_acc.owner, token_program) {
        return Err(EscrowError::InvalidAccountOwner);
    }
    if !keys_equal(&mint_a_acc.key, &escrow_state.mint_a) || !keys_equal(
        &mint_b_acc.key,
        &escrow_state.mint_b,
    ) {
        return Err(EscrowError::InvalidAccountData);
    }
    let decimals_a = mint_decimals(mint_a_acc, token_program)?;
    let decimals_b = mint_decimals(mint_b_acc, token_program)?;
    if !holding_of(&accounts[TAKE_VAULT], token_program, &mint_a_acc.key, &escrow_acc.key) {
        return Err(EscrowError::InvalidAccountOwner);
    }
    if !accounts[TAKE_MAKER_ATA_B].data_is_empty() && !holding_of(
        &accounts[TAKE_MAKER_ATA_B],
        token_program,
        &mint_b_acc.key,
        &maker_acc.key,
    ) {
        return Err(EscrowError::InvalidAccountOwner);
    }
    let signer_seeds = Escrow::signer_seeds(&maker_acc.key, escrow_state.seed, escrow_state.bump);

    let mut actions: Vec<Action> = Vec::new();
    if accounts[TAKE_MAKER_ATA_B].data_is_empty() {
        actions.push(
            Action::InitializeAccount {
                account: TAKE_MAKER_ATA_B,
                mint: TAKE_MINT_B,
                owner: TAKE_MAKER,
                rent_sysvar: TAKE_RENT,
            },
        );
    }
    if accounts[TAKE_TAKER_ATA_A].data_is_empty() {
        actions.push(
            Action::InitializeAccount {
                account: TAKE_TAKER_ATA_A,
                mint: TAKE_MINT_A,
                owner: TAKE_TAKER,
                rent_sysvar: TAKE_RENT,
            },
        );
    }
    actions.push(
        Action::TransferChecked {
            from: TAKE_VAULT,
            mint: TAKE_MINT_A,
            to: TAKE_TAKER_ATA_A,
            authority: TAKE_ESCROW,
            amount: escrow_state.receive_amount,
            decimals: decimals_a,
        },
    );
    actions.push(
        Action::TransferChecked {
            from: TAKE_TAKER_ATA_B,
            mint: TAKE_MINT_B,
            to: TAKE_MAKER_ATA_B,
            authority: TAKE_TAKER,
            amount: escrow_state.receive_amount,
            decimals: decimals_b,
        },
    );
    actions.push(
        Action::CloseAccount { account: TAKE_VAULT, destination: TAKE_MAKER, authority: TAKE_ESCROW },
    );
    actions.push(Action::CloseProgramAccount { account: TAKE_ESCROW, destination: TAKE_MAKER });
    let p = Plan { signer_seeds, actions };
    proof {
        assert(maker_acc.key =~= escrow_state.maker);
        assert forall|e: Escrow| #[trigger]
            escrow_bytes(e) == accounts@[7].data@ implies is_take_plan(p, accounts@, e) by {
            lemma_escrow_bytes_injective(e, escrow_state);
        }
        assert(escrow_bytes(escrow_state) == accounts@[7].data@);
    }
    Ok(p)
}

} // verus!
