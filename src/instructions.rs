use vstd::prelude::*;
use crate::account::Pubkey;
use crate::error::EscrowError;
use crate::state::{le_value, read_key, read_le_u64, seed_material};

verus! {

/// The three instructions, told apart by the first byte of the call's data.
#[derive(Clone, Copy, Debug, PartialEq, Eq, Structural)]
pub enum ProgramInstruction {
    MakeInstruction,
    TakeInstruction,
    RefundInstruction,
}

impl ProgramInstruction {
    /// Decodes a discriminator: 0 creates, 1 fulfils, 2 cancels.
    pub fn try_from(value: &u8) -> (r: Result<ProgramInstruction, EscrowError>)
        ensures
            *value == 0 ==> r == Ok::<ProgramInstruction, EscrowError>(
                ProgramInstruction::MakeInstruction,
            ),
            *value == 1 ==> r == Ok::<ProgramInstruction, EscrowError>(
                ProgramInstruction::TakeInstruction,
            ),
            *value == 2 ==> r == Ok::<ProgramInstruction, EscrowError>(
                ProgramInstruction::RefundInstruction,
            ),
            *value > 2 ==> r == Err::<ProgramInstruction, EscrowError>(
                EscrowError::InvalidInstructionData,
            ),
    {
        match *value {
            0 => Ok(ProgramInstruction::MakeInstruction),
            1 => Ok(ProgramInstruction::TakeInstruction),
            2 => Ok(ProgramInstruction::RefundInstruction),
            _ => Err(EscrowError::InvalidInstructionData),
        }
    }
}

/// The payload of the create instruction.
#[derive(Clone, Copy, Debug, PartialEq, Eq)]
pub struct MakeEscrow {
    pub seed: u8,
    pub mint_a: Pubkey,
    pub mint_b: Pubkey,
    pub recieve_amount: u64,
    /// Reserved bytes, carried but not read.
    pub data: [u8; 32],
    pub bump: u8,
}

/// Width of the create payload: seed, two asset ids, amount, reserved, bump.
pub const MAKE_ESCROW_LEN: usize = 106;

/// What a create payload of exactly `MAKE_ESCROW_LEN` bytes holds.
pub open spec fn make_payload_matches(ix: MakeEscrow, s: Seq<u8>) -> bool {
    &&& s.len() == MAKE_ESCROW_LEN
    &&& ix.seed == s[0]
    &&& ix.mint_a@ == s.subrange(1, 33)
    &&& ix.mint_b@ == s.subrange(33, 65)
    &&& ix.recieve_amount == le_value(s.subrange(65, 73))
    &&& ix.data@ == s.subrange(73, 105)
    &&& ix.bump == s[105]
}

impl MakeEscrow {
    /// Decodes a create payload; any other length is malformed.
    pub fn from_bytes(s: &[u8]) -> (r: Result<MakeEscrow, EscrowError>)
        ensures
            s@.len() != MAKE_ESCROW_LEN ==> r == Err::<MakeEscrow, EscrowError>(
                EscrowError::InvalidInstructionData,
            ),
            s@.len() == MAKE_ESCROW_LEN ==> (r matches Ok(ix) && make_payload_matches(ix, s@)),
    {
        if s.len() != MAKE_ESCROW_LEN {
            return Err(EscrowError::InvalidInstructionData);
        }
        Ok(
            MakeEscrow {
                seed: s[0],
                mint_a: read_key(s, 1),
                mint_b: read_key(s, 33),
                recieve_amount: read_le_u64(s, 65),
                data: read_key(s, 73),
                bump: s[105],
            },
        )
    }
}

/// A step of a plan, carried out on the call's accounts, named by their
/// position in the list the call supplied.
#[derive(Debug, PartialEq, Eq)]
pub enum Action {
    /// Allocates `space` bytes at `to`, funded by `from` with `lamports` and
    /// owned by `program`; signed for with the escrow's seed material.
    CreateAccount { from: usize, to: usize, program: Pubkey, space: u64, lamports: u64 },
    /// Stores `data` in the account's freshly allocated storage.
    WriteData { account: usize, data: Vec<u8> },
    /// Opens `account` as a holding account of `mint` held by `owner`.
    InitializeAccount { account: usize, mint: usize, owner: usize, rent_sysvar: usize },
    /// Moves `amount` of `mint` from `from` to `to`, on the authority of
    /// `authority`, with the mint's `decimals`.
    TransferChecked {
        from: usize,
        mint: usize,
        to: usize,
        authority: usize,
        amount: u64,
        decimals: u8,
    },
    /// Closes the holding account `account`; its deposit goes to
    /// `destination`.
    CloseAccount { account: usize, destination: usize, authority: usize },
    /// Moves every lamport of the program's own `account` to `destination`
    /// and releases its storage.
    CloseProgramAccount { account: usize, destination: usize },
}

/// What a handler asks of the runtime: every action in order, each signed
/// for with `signer_seeds` where the escrow's authority is needed. Either
/// all of them take effect or none does.
#[derive(Debug, PartialEq, Eq)]
pub struct Plan {
    pub signer_seeds: Vec<Vec<u8>>,
    pub actions: Vec<Action>,
}

/// The plan signs with the seed material of the escrow of (maker, seed, bump).
pub open spec fn signs_as(p: Plan, maker: Pubkey, seed: u8, bump: u8) -> bool {
    &&& p.signer_seeds@.len() == 4
    &&& forall|i: int|
        0 <= i < 4 ==> #[trigger] p.signer_seeds@[i]@ == seed_material(maker, seed, bump)[i]
}

/// Two payloads read from the same bytes are the same.
pub proof fn lemma_make_payload_unique(a: MakeEscrow, b: MakeEscrow, s: Seq<u8>)
    requires
        make_payload_matches(a, s),
        make_payload_matches(b, s),
    ensures
        a == b,
{
    assert(a.mint_a =~= b.mint_a);
    assert(a.mint_b =~= b.mint_b);
    assert(a.data =~= b.data);
}

} // verus!
