use vstd::prelude::*;
use crate::account::{AccountView, Pubkey};
use crate::error::EscrowError;
use crate::instructions::{Plan, ProgramInstruction};
use crate::instructions::{MakeEscrow, make_payload_matches};
use crate::make::{is_make_plan, make_refusal, process_make_instruction};
use crate::state::{Escrow, escrow_bytes};
use vstd::slice::slice_subrange;
use crate::refund::{is_refund_plan, process_refund_instructions, refund_refusal};
use crate::take::{is_take_plan, process_take_instruction, take_refusal};

verus! {

/// Routes a call by its first byte (0 create, 1 fulfil, 2 cancel) to its
/// handler with the rest of the data; empty data or another byte is
/// malformed.
pub fn process_instruction(
    accounts: &[AccountView],
    data: &[u8],
    program_id: &Pubkey,
    token_program: &Pubkey,
    rent_lamports: u64,
    canonical_bump: Option<u8>,
) -> (r: Result<Plan, EscrowError>)
    ensures
        data@.len() == 0 || data@[0] > 2 ==> r == Err::<Plan, EscrowError>(
            EscrowError::InvalidInstructionData,
        ),
        data@.len() > 0 && data@[0] == 0 ==> ({
            let payload = data@.subrange(1, data@.len() as int);
            &&& make_refusal(accounts@, payload, *token_program, canonical_bump) matches Some(err) ==> r == Err::<
                Plan,
                EscrowError,
            >(err)
            &&& make_refusal(accounts@, payload, *token_program, canonical_bump) is None ==> (r matches Ok(p)
                && forall|ix: MakeEscrow| #[trigger]
                    make_payload_matches(ix, payload) ==> is_make_plan(
                    p,
                    accounts@,
                    ix,
                    *program_id,
                    rent_lamports,
                ))
        }),
        data@.len() > 0 && data@[0] == 1 ==> ({
            &&& take_refusal(accounts@, *program_id, *token_program) matches Some(err) ==> r
                == Err::<Plan, EscrowError>(err)
            &&& take_refusal(accounts@, *program_id, *token_program) is None ==> (r matches Ok(p)
                && forall|e: Escrow| #[trigger]
                    escrow_bytes(e) == accounts@[7].data@ ==> is_take_plan(p, accounts@, e))
        }),
        data@.len() > 0 && data@[0] == 2 ==> ({
            &&& refund_refusal(accounts@, *program_id, *token_program) matches Some(err) ==> r
                == Err::<Plan, EscrowError>(err)
            &&& refund_refusal(accounts@, *program_id, *token_program) is None ==> (r matches Ok(
                p,
            ) && forall|e: Escrow| #[trigger]
                escrow_bytes(e) == accounts@[3].data@ ==> is_refund_plan(p, accounts@, e))
        }),
{
    if data.len() == 0 {
        return Err(EscrowError::InvalidInstructionData);
    }
    let rest = slice_subrange(data, 1, data.len());
    match ProgramInstruction::try_from(&data[0]) {
        Ok(ProgramInstruction::MakeInstruction) => process_make_instruction(
            accounts,
            rest,
            program_id,
            token_program,
            rent_lamports,
            canonical_bump,
        ),
        Ok(ProgramInstruction::TakeInstruction) => process_take_instruction(
            accounts,
            rest,
            program_id,
            token_program,
        ),
        Ok(ProgramInstruction::RefundInstruction) => process_refund_instructions(
            accounts,
            rest,
            program_id,
            token_program,
        ),
        Err(e) => Err(e),
    }
}

} // verus!
