use vstd::prelude::*;
use crate::account::{AccountView, Pubkey};
use crate::error::EscrowError;
use crate::instructions::MakeEscrow;
use crate::account::keys_equal;

verus! {

/// The eight little-endian bytes of `v`.
pub open spec fn le_bytes(v: u64) -> Seq<u8> {
    seq![
        v as u8,
        (v >> 8u64) as u8,
        (v >> 16u64) as u8,
        (v >> 24u64) as u8,
        (v >> 32u64) as u8,
        (v >> 40u64) as u8,
        (v >> 48u64) as u8,
        (v >> 56u64) as u8,
    ]
}

/// The value of eight little-endian bytes.
pub open spec fn le_value(b: Seq<u8>) -> u64
    recommends
        b.len() == 8,
{
    (b[0] as u64) | ((b[1] as u64) << 8u64) | ((b[2] as u64) << 16u64) | ((b[3] as u64)
        << 24u64) | ((b[4] as u64) << 32u64) | ((b[5] as u64) << 40u64) | ((b[6] as u64)
        << 48u64) | ((b[7] as u64) << 56u64)
}

/// Reading back the bytes of a value gives the value.
pub proof fn lemma_le_round_trip(v: u64)
    ensures
        le_value(le_bytes(v)) == v,
{
    let b0 = v as u8;
    let b1 = (v >> 8u64) as u8;
    let b2 = (v >> 16u64) as u8;
    let b3 = (v >> 24u64) as u8;
    let b4 = (v >> 32u64) as u8;
    let b5 = (v >> 40u64) as u8;
    let b6 = (v >> 48u64) as u8;
    let b7 = (v >> 56u64) as u8;
    assert((b0 as u64) | ((b1 as u64) << 8u64) | ((b2 as u64) << 16u64) | ((b3 as u64) << 24u64)
        | ((b4 as u64) << 32u64) | ((b5 as u64) << 40u64) | ((b6 as u64) << 48u64) | ((b7 as u64)
        << 56u64) == v) by (bit_vector)
        requires
            b0 == v as u8,
            b1 == (v >> 8u64) as u8,
            b2 == (v >> 16u64) as u8,
            b3 == (v >> 24u64) as u8,
            b4 == (v >> 32u64) as u8,
            b5 == (v >> 40u64) as u8,
            b6 == (v >> 48u64) as u8,
            b7 == (v >> 56u64) as u8,
    ;
}

/// Appends the bytes of `b` to `v`.
fn push_bytes(v: &mut Vec<u8>, b: &[u8])
    ensures
        final(v)@ == old(v)@ + b@,
{
    let mut i: usize = 0;
    while i < b.len()
        invariant
            0 <= i <= b@.len(),
            v@ == old(v)@ + b@.subrange(0, i as int),
        decreases b@.len() - i,
    {
        v.push(b[i]);
        i = i + 1;
        assert(b@.subrange(0, i as int) =~= b@.subrange(0, i - 1) + seq![b@[i - 1]]);
    }
    assert(b@.subrange(0, b@.len() as int) =~= b@);
}

/// Appends the eight little-endian bytes of `x` to `v`.
pub fn push_le_u64(v: &mut Vec<u8>, x: u64)
    ensures
        final(v)@ == old(v)@ + le_bytes(x),
{
    v.push(x as u8);
    v.push((x >> 8u64) as u8);
    v.push((x >> 16u64) as u8);
    v.push((x >> 24u64) as u8);
    v.push((x >> 32u64) as u8);
    v.push((x >> 40u64) as u8);
    v.push((x >> 48u64) as u8);
    v.push((x >> 56u64) as u8);
    assert(v@ =~= old(v)@ + le_bytes(x));
}

/// Reads eight little-endian bytes of `s` from `at`.
pub fn read_le_u64(s: &[u8], at: usize) -> (r: u64)
    requires
        at + 8 <= s@.len(),
    ensures
        r == le_value(s@.subrange(at as int, at + 8)),
{
    let ghost b = s@.subrange(at as int, at + 8);
    assert(b[0] == s@[at as int] && b[1] == s@[at + 1] && b[2] == s@[at + 2] && b[3] == s@[at
        + 3] && b[4] == s@[at + 4] && b[5] == s@[at + 5] && b[6] == s@[at + 6] && b[7] == s@[at
        + 7]);
    (s[at] as u64) | ((s[at + 1] as u64) << 8u64) | ((s[at + 2] as u64) << 16u64) | ((s[at
        + 3] as u64) << 24u64) | ((s[at + 4] as u64) << 32u64) | ((s[at + 5] as u64) << 40u64)
        | ((s[at + 6] as u64) << 48u64) | ((s[at + 7] as u64) << 56u64)
}

/// Reads 32 bytes of `s` from `at` as an identifier.
pub fn read_key(s: &[u8], at: usize) -> (r: Pubkey)
    requires
        at + 32 <= s@.len(),
    ensures
        r@ == s@.subrange(at as int, at + 32),
{
    let mut k: Pubkey = [0u8; 32];
    let n: usize = s.len();
    let mut i: usize = 0;
    while i < 32
        invariant
            0 <= i <= 32,
            n == s@.len(),
            at + 32 <= n,
            forall|j: int| 0 <= j < i ==> k@[j] == s@[at + j],
        decreases 32 - i,
    {
        k[i] = s[at + i];
        i = i + 1;
    }
    assert(k@ =~= s@.subrange(at as int, at + 32));
    k
}

/// Length of a stored escrow record.
pub const ESCROW_LEN: usize = 106;

/// One open escrow: what the maker locked and what they want for it.
#[derive(Clone, Copy, Debug, PartialEq, Eq)]
pub struct Escrow {
    /// Chosen by the maker, so that one maker may keep several escrows.
    pub seed: u8,
    /// The asset held in the vault.
    pub mint_a: Pubkey,
    /// The asset asked for in return.
    pub mint_b: Pubkey,
    /// The account that opened the escrow and may cancel it.
    pub maker: Pubkey,
    /// The amount, in raw units, that moves on each leg of the swap.
    pub receive_amount: u64,
    /// Completes the derivation of the record's address.
    pub bump: u8,
}

/// The stored layout of a record: fields in order, no padding, the amount
/// little-endian.
pub open spec fn escrow_bytes(e: Escrow) -> Seq<u8> {
    seq![e.seed] + e.mint_a@ + e.mint_b@ + e.maker@ + le_bytes(e.receive_amount) + seq![e.bump]
}

/// The record that a create payload opens for `maker`.
pub open spec fn record_of(ix: MakeEscrow, maker: Pubkey) -> Escrow {
    Escrow {
        seed: ix.seed,
        mint_a: ix.mint_a,
        mint_b: ix.mint_b,
        maker: maker,
        receive_amount: ix.recieve_amount,
        bump: ix.bump,
    }
}

/// The domain tag that starts every escrow's seed material: "escrow".
pub open spec fn seed_tag() -> Seq<u8> {
    seq![101u8, 115u8, 99u8, 114u8, 111u8, 119u8]
}

/// The seed material from which an escrow's address is derived, and with
/// which the program signs for that address.
pub open spec fn seed_material(maker: Pubkey, seed: u8, bump: u8) -> Seq<Seq<u8>> {
    seq![seed_tag(), maker@, seq![seed], seq![bump]]
}

/// The maker field of stored record bytes.
pub open spec fn stored_maker(data: Seq<u8>) -> Seq<u8> {
    data.subrange(65, 97)
}

/// The asset A field of stored record bytes.
pub open spec fn stored_mint_a(data: Seq<u8>) -> Seq<u8> {
    data.subrange(1, 33)
}

/// The asset B field of stored record bytes.
pub open spec fn stored_mint_b(data: Seq<u8>) -> Seq<u8> {
    data.subrange(33, 65)
}

/// The fields of a record, read from its stored bytes.
pub proof fn lemma_escrow_fields(e: Escrow)
    ensures
        escrow_bytes(e).len() == ESCROW_LEN,
        stored_maker(escrow_bytes(e)) == e.maker@,
        stored_mint_a(escrow_bytes(e)) == e.mint_a@,
        stored_mint_b(escrow_bytes(e)) == e.mint_b@,
{
    assert(stored_maker(escrow_bytes(e)) =~= e.maker@);
    assert(stored_mint_a(escrow_bytes(e)) =~= e.mint_a@);
    assert(stored_mint_b(escrow_bytes(e)) =~= e.mint_b@);
}

/// A stored record determines every field.
pub proof fn lemma_escrow_bytes_injective(a: Escrow, b: Escrow)
    requires
        escrow_bytes(a) == escrow_bytes(b),
    ensures
        a == b,
{
    let sa = escrow_bytes(a);
    let sb = escrow_bytes(b);
    assert(sa.len() == 106);
    assert(sa[0] == a.seed && sb[0] == b.seed);
    assert(a.mint_a@ =~= sa.subrange(1, 33));
    assert(b.mint_a@ =~= sb.subrange(1, 33));
    assert(a.mint_b@ =~= sa.subrange(33, 65));
    assert(b.mint_b@ =~= sb.subrange(33, 65));
    assert(a.maker@ =~= sa.subrange(65, 97));
    assert(b.maker@ =~= sb.subrange(65, 97));
    assert(le_bytes(a.receive_amount) =~= sa.subrange(97, 105));
    assert(le_bytes(b.receive_amount) =~= sb.subrange(97, 105));
    assert(sa[105] == a.bump && sb[105] == b.bump);
    lemma_le_round_trip(a.receive_amount);
    lemma_le_round_trip(b.receive_amount);
    assert(a.mint_a =~= b.mint_a);
    assert(a.mint_b =~= b.mint_b);
    assert(a.maker =~= b.maker);
}

/// Different (maker, seed, bump) give different seed material: any one
/// differing byte changes what the address is derived from.
pub proof fn lemma_seed_material_injective(
    maker1: Pubkey,
    seed1: u8,
    bump1: u8,
    maker2: Pubkey,
    seed2: u8,
    bump2: u8,
)
    ensures
        seed_material(maker1, seed1, bump1) == seed_material(maker2, seed2, bump2) <==> (maker1
            == maker2 && seed1 == seed2 && bump1 == bump2),
{
    if seed_material(maker1, seed1, bump1) == seed_material(maker2, seed2, bump2) {
        let m1 = seed_material(maker1, seed1, bump1);
        let m2 = seed_material(maker2, seed2, bump2);
        assert(m1[1] == m2[1]);
        assert(maker1 =~= maker2);
        assert(m1[2][0] == m2[2][0]);
        assert(m1[3][0] == m2[3][0]);
    }
}

impl Escrow {
    /// The stored bytes of this record.
    pub fn to_bytes(&self) -> (r: Vec<u8>)
        ensures
            r@ == escrow_bytes(*self),
    {
        let mut v: Vec<u8> = Vec::new();
        v.push(self.seed);
        push_bytes(&mut v, self.mint_a.as_slice());
        push_bytes(&mut v, self.mint_b.as_slice());
        push_bytes(&mut v, self.maker.as_slice());
        push_le_u64(&mut v, self.receive_amount);
        v.push(self.bump);
        assert(v@ =~= escrow_bytes(*self));
        v
    }

    /// Decodes a stored record; any other length is not a record.
    pub fn from_bytes(s: &[u8]) -> (r: Result<Escrow, EscrowError>)
        ensures
            s@.len() != ESCROW_LEN ==> r == Err::<Escrow, EscrowError>(
                EscrowError::InvalidAccountData,
            ),
            s@.len() == ESCROW_LEN ==> (r matches Ok(e) && escrow_bytes(e) == s@),
    {
        if s.len() != ESCROW_LEN {
            return Err(EscrowError::InvalidAccountData);
        }
        let e = Escrow {
            seed: s[0],
            mint_a: read_key(s, 1),
            mint_b: read_key(s, 33),
            maker: read_key(s, 65),
            receive_amount: read_le_u64(s, 97),
            bump: s[105],
        };
        proof {
            let t = s@.subrange(97, 105);
            assert(le_bytes(le_value(t)) =~= t) by {
                let v = le_value(t);
                let (b0, b1, b2, b3, b4, b5, b6, b7) = (t[0], t[1], t[2], t[3], t[4], t[5], t[6], t[7]);
                assert(v as u8 == b0 && (v >> 8u64) as u8 == b1 && (v >> 16u64) as u8 == b2 && (v
                    >> 24u64) as u8 == b3 && (v >> 32u64) as u8 == b4 && (v >> 40u64) as u8 == b5
                    && (v >> 48u64) as u8 == b6 && (v >> 56u64) as u8 == b7) by (bit_vector)
                    requires
                        v == (b0 as u64) | ((b1 as u64) << 8u64) | ((b2 as u64) << 16u64) | ((b3
                            as u64) << 24u64) | ((b4 as u64) << 32u64) | ((b5 as u64) << 40u64)
                            | ((b6 as u64) << 48u64) | ((b7 as u64) << 56u64),
                ;
            }
            assert(escrow_bytes(e) =~= s@);
        }
        Ok(e)
    }

    /// Reads the record held by an account. The account must hold exactly
    /// one record and be owned by `program_id`; anything else is refused.
    pub fn from_account_info(account: &AccountView, program_id: &Pubkey) -> (r: Result<
        Escrow,
        EscrowError,
    >)
        ensures
            account.data@.len() != ESCROW_LEN ==> r == Err::<Escrow, EscrowError>(
                EscrowError::InvalidAccountData,
            ),
            account.data@.len() == ESCROW_LEN && account.owner != *program_id ==> r == Err::<
                Escrow,
                EscrowError,
            >(EscrowError::InvalidAccountOwner),
            account.data@.len() == ESCROW_LEN && account.owner == *program_id ==> (r matches Ok(
                e,
            ) && escrow_bytes(e) == account.data@),
    {
        if account.data.len() != ESCROW_LEN {
            return Err(EscrowError::InvalidAccountData);
        }
        if !keys_equal(&account.owner, program_id) {
            return Err(EscrowError::InvalidAccountOwner);
        }
        Escrow::from_bytes(account.data.as_slice())
    }

    /// Reads the record held by an account, for reading only: the same
    /// checks as `from_account_info`.
    pub fn from_account_info_readable(account: &AccountView, program_id: &Pubkey) -> (r: Result<
        Escrow,
        EscrowError,
    >)
        ensures
            account.data@.len() != ESCROW_LEN ==> r == Err::<Escrow, EscrowError>(
                EscrowError::InvalidAccountData,
            ),
            account.data@.len() == ESCROW_LEN && account.owner != *program_id ==> r == Err::<
                Escrow,
                EscrowError,
            >(EscrowError::InvalidAccountOwner),
            account.data@.len() == ESCROW_LEN && account.owner == *program_id ==> (r matches Ok(
                e,
            ) && escrow_bytes(e) == account.data@),
    {
        Escrow::from_account_info(account, program_id)
    }

    /// Fills a freshly allocated, exactly sized slot with the record that
    /// `ix` opens for `maker`. The maker stored is the signer that opened the
    /// escrow, so that the same signer can later cancel it.
    pub fn intialize(escrow_acc: &mut AccountView, maker: &Pubkey, ix_data: &MakeEscrow) -> (r:
        Result<(), EscrowError>)
        ensures
            old(escrow_acc).data@.len() != ESCROW_LEN ==> r == Err::<(), EscrowError>(
                EscrowError::InvalidAccountData,
            ) && *final(escrow_acc) == *old(escrow_acc),
            old(escrow_acc).data@.len() == ESCROW_LEN ==> r == Ok::<(), EscrowError>(())
                && final(escrow_acc).data@ == escrow_bytes(record_of(*ix_data, *maker))
                && final(escrow_acc).key == old(escrow_acc).key
                && final(escrow_acc).owner == old(escrow_acc).owner
                && final(escrow_acc).is_signer == old(escrow_acc).is_signer
                && final(escrow_acc).lamports == old(escrow_acc).lamports,
    {
        if escrow_acc.data.len() != ESCROW_LEN {
            return Err(EscrowError::InvalidAccountData);
        }
        let e = Escrow {
            seed: ix_data.seed,
            mint_a: ix_data.mint_a,
            mint_b: ix_data.mint_b,
            maker: *maker,
            receive_amount: ix_data.recieve_amount,
            bump: ix_data.bump,
        };
        escrow_acc.data = e.to_bytes();
        Ok(())
    }

    /// The seed material for this record's address: the tag, the maker, the
    /// seed byte and the bump.
    pub fn signer_seeds(maker: &Pubkey, seed: u8, bump: u8) -> (r: Vec<Vec<u8>>)
        ensures
            r@.len() == 4,
            forall|i: int| 0 <= i < 4 ==> #[trigger] r@[i]@ == seed_material(*maker, seed, bump)[i],
    {
        let tag: Vec<u8> = vec![101u8, 115u8, 99u8, 114u8, 111u8, 119u8];
        let mut key: Vec<u8> = Vec::new();
        push_bytes(&mut key, maker.as_slice());
        let r: Vec<Vec<u8>> = vec![tag, key, vec![seed], vec![bump]];
        assert(r@[0]@ =~= seed_tag());
        assert(r@[2]@ =~= seq![seed]);
        assert(r@[3]@ =~= seq![bump]);
        r
    }

    /// Checks an escrow address against the address that the runtime derived
    /// from its seed material (`None` where that material gives no valid
    /// address).
    pub fn validate_pda(derived: Option<Pubkey>, pda: &Pubkey) -> (r: Result<(), EscrowError>)
        ensures
            r is Ok <==> derived == Some(*pda),
            r is Err ==> r == Err::<(), EscrowError>(EscrowError::InvalidSeeds),
    {
        match derived {
            Some(d) => {
                if keys_equal(&d, pda) {
                    Ok(())
                } else {
                    Err(EscrowError::InvalidSeeds)
                }
            },
            None => Err(EscrowError::InvalidSeeds),
        }
    }
}

} // verus!
