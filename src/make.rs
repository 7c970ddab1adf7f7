use vstd::prelude::*;
use crate::account::{AccountView, Pubkey, keys_equal};
use crate::error::EscrowError;
use crate::instructions::{
    Action,
    MakeEscrow,
    Plan,
    lemma_make_payload_unique,
    make_payload_matches,
    signs_as,
};
use crate::state::{ESCROW_LEN, Escrow, escrow_bytes, record_of};
use crate::token::{MINT_DECIMALS_AT, MINT_LEN, holding_of, is_holding, mint_decimals};

verus! {

/// Position of the maker, who signs and pays.
pub const MAKE_MAKER: usize = 0;
/// Position of the mint of asset A.
pub const MAKE_MINT_A: usize = 1;
/// Position of the mint of asset B.
pub const MAKE_MINT_B: usize = 2;
/// Position of the maker's holding account of asset A.
pub const MAKE_MAKER_ATA_A: usize = 3;
/// Position of the escrow record's slot.
pub const MAKE_ESCROW: usize = 4;
/// Position of the vault.
pub const MAKE_VAULT: usize = 5;
/// Position of the rent sysvar.
pub const MAKE_RENT: usize = 6;
/// Number of accounts that create names; more may follow.
pub const MAKE_ACCOUNTS: usize = 9;

/// Why create refuses a call, in the order the checks are made; `None`
/// where it accepts. `canonical_bump` is the bump that the runtime's address
/// search finds for the maker and the payload's seed.
pub open spec fn make_refusal(
    accounts: Seq<AccountView>,
    data: Seq<u8>,
    token_program: Pubkey,
    canonical_bump: Option<u8>,
) -> Option<EscrowError> {
    if accounts.len() < MAKE_ACCOUNTS {
        Some(EscrowError::NotEnoughAccountKeys)
    } else if !accounts[0].is_signer {
        Some(EscrowError::MissingRequiredSignature)
    } else if accounts[4].data@.len() != 0 {
        Some(EscrowError::AccountAlreadyInitialized)
    } else if data.len() != crate::instructions::MAKE_ESCROW_LEN {
        Some(EscrowError::InvalidInstructionData)
    } else if canonical_bump != Some(data[105]) {
        Some(EscrowError::InvalidSeeds)
    } else if accounts[1].owner != token_program || accounts[2].owner != token_program {
        Some(EscrowError::InvalidAccountOwner)
    } else if accounts[1].data@.len() != MINT_LEN {
        Some(EscrowError::InvalidAccountData)
    } else if accounts[5].data@.len() != 0 && !is_holding(
        accounts[5],
        token_program,
        accounts[1].key,
        accounts[4].key,
    ) {
        Some(EscrowError::InvalidAccountOwner)
    } else {
        None
    }
}

/// The plan of an accepted create with payload `ix`: allocate the record at
/// its derived address, write it, open the vault if it is not open yet, and
/// move the deposit from the maker into the vault.
pub open spec fn is_make_plan(
    p: Plan,
    accounts: Seq<AccountView>,
    ix: MakeEscrow,
    program_id: Pubkey,
    rent_lamports: u64,
) -> bool {
    let maker = accounts[0].key;
    let fresh_vault = accounts[5].data@.len() == 0;
    let n = if fresh_vault { 4int } else { 3int };
    &&& signs_as(p, maker, ix.seed, ix.bump)
    &&& p.actions@.len() == n
    &&& p.actions@[0] == Action::CreateAccount {
        from: 0,
        to: 4,
        program: program_id,
        space: ESCROW_LEN as u64,
        lamports: rent_lamports,
    }
    &&& (p.actions@[1] matches Action::WriteData { account, data } && account == 4 && data@
        == escrow_bytes(record_of(ix, maker)))
    &&& fresh_vault ==> p.actions@[2] == Action::InitializeAccount {
        account: 5,
        mint: 1,
        owner: 4,
        rent_sysvar: 6,
    }
    &&& p.actions@[n - 1] == Action::TransferChecked {
        from: 3,
        mint: 1,
        to: 5,
        authority: 0,
        amount: ix.recieve_amount,
        decimals: accounts[1].data@[MINT_DECIMALS_AT as int],
    }
}

/// A slot of `n` zero bytes.
fn zeroed(n: usize) -> (r: Vec<u8>)
    ensures
        r@ == Seq::new(n as nat, |i: int| 0u8),
{
    let mut v: Vec<u8> = Vec::new();
    let mut i: usize = 0;
    while i < n
        invariant
            0 <= i <= n,
            v@ == Seq::new(i as nat, |j: int| 0u8),
        decreases n - i,
    {
        v.push(0u8);
        i = i + 1;
        assert(v@ =~= Seq::new(i as nat, |j: int| 0u8));
    }
    v
}

/// Opens an escrow: checks the maker's signature, that the record's slot is
/// empty, the payload and the mints, and plans the record's creation and
/// the deposit of `recieve_amount` of asset A into the vault.
/// `rent_lamports` is the minimum deposit for a record of `ESCROW_LEN` bytes.
/// `canonical_bump` is the bump that the runtime's address search finds for
/// the maker and the payload's seed (`None` where it finds none); any other
/// bump is refused, so that each (maker, seed) names one escrow address.
pub fn process_make_instruction(
    accounts: &[AccountView],
    data: &[u8],
    program_id: &Pubkey,
    token_program: &Pubkey,
    rent_lamports: u64,
    canonical_bump: Option<u8>,
) -> (r: Result<Plan, EscrowError>)
    ensures
        make_refusal(accounts@, data@, *token_program, canonical_bump) matches Some(e) ==> r == Err::<
            Plan,
            EscrowError,
        >(e),
        make_refusal(accounts@, data@, *token_program, canonical_bump) is None ==> (r matches Ok(p) && forall|
            ix: MakeEscrow,
        |
            #[trigger] make_payload_matches(ix, data@) ==> is_make_plan(
                p,
                accounts@,
                ix,
                *program_id,
                rent_lamports,
            )),
        make_refusal(accounts@, data@, *token_program, canonical_bump) is None ==> exists|ix: MakeEscrow|
            #[trigger] make_payload_matches(ix, data@),
{
    if accounts.len() < MAKE_ACCOUNTS {
        return Err(EscrowError::NotEnoughAccountKeys);
    }
    let maker_acc = &accounts[MAKE_MAKER];
    let mint_a_acc = &accounts[MAKE_MINT_A];
    let mint_b_acc = &accounts[MAKE_MINT_B];
    let escrow_acc = &accounts[MAKE_ESCROW];
    let escrow_vault = &accounts[MAKE_VAULT];
    if !maker_acc.is_signer {
        return Err(EscrowError::MissingRequiredSignature);
    }
    if !escrow_acc.data_is_empty() {
        return Err(EscrowError::AccountAlreadyInitialized);
    }
    let ix_data = MakeEscrow::from_bytes(data)?;
    match canonical_bump {
        Some(b) => {
            if b != ix_data.bump {
                return Err(EscrowError::InvalidSeeds);
            }
        },
        None => {
            return Err(EscrowError::InvalidSeeds);
        },
    }
    if !keys_equal(&mint_a_acc.owner, token_program) || !keys_equal(&mint_b_acc.owner, token_program) {
        return Err(EscrowError::InvalidAccountOwner);
    }
    let decimals = mint_decimals(mint_a_acc, token_program)?;
    let fresh_vault = escrow_vault.data_is_empty();
    if !fresh_vault && !holding_of(escrow_vault, token_program, &mint_a_acc.key, &escrow_acc.key) {
        return Err(EscrowError::InvalidAccountOwner);
    }
    let signer_seeds = Escrow::signer_seeds(&maker_acc.key, ix_data.seed, ix_data.bump);

    // The record's slot as the runtime allocates it: zeroed, exactly sized.
    let mut staged = AccountView {
        key: escrow_acc.key,
        owner: *program_id,
        is_signer: false,
        lamports: rent_lamports,
        data: zeroed(ESCROW_LEN),
    };
    Escrow::intialize(&mut staged, &maker_acc.key, &ix_data)?;

    let mut actions: Vec<Action> = Vec::new();
    actions.push(
        Action::CreateAccount {
            from: MAKE_MAKER,
            to: MAKE_ESCROW,
            program: *program_id,
            space: ESCROW_LEN as u64,
            lamports: rent_lamports,
        },
    );
    actions.push(Action::WriteData { account: MAKE_ESCROW, data: staged.data });
    if fresh_vault {
        actions.push(
            Action::InitializeAccount {
                account: MAKE_VAULT,
                mint: MAKE_MINT_A,
                owner: MAKE_ESCROW,
                rent_sysvar: MAKE_RENT,
            },
        );
    }
    actions.push(
        Action::TransferChecked {
            from: MAKE_MAKER_ATA_A,
            mint: MAKE_MINT_A,
            to: MAKE_VAULT,
            authority: MAKE_MAKER,
            amount: ix_data.recieve_amount,
            decimals: decimals,
        },
    );
    let p = Plan { signer_seeds, actions };
    proof {
        assert forall|ix: MakeEscrow| #[trigger] make_payload_matches(ix, data@) implies is_make_plan(
            p,
            accounts@,
            ix,
            *program_id,
            rent_lamports,
        ) by {
            lemma_make_payload_unique(ix, ix_data, data@);
        }
        assert(make_payload_matches(ix_data, data@));
    }
    Ok(p)
}

} // verus!
