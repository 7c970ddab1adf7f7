use vstd::prelude::*;

verus! {

/// A 32-byte account or program identifier.
pub type Pubkey = [u8; 32];

/// What a handler reads of one account named by the call.
pub struct AccountView {
    pub key: Pubkey,
    /// The program that owns the account's storage.
    pub owner: Pubkey,
    pub is_signer: bool,
    pub lamports: u64,
    pub data: Vec<u8>,
}

impl AccountView {
    /// An account whose storage is not allocated holds no data.
    pub fn data_is_empty(&self) -> (r: bool)
        ensures
            r == (self.data@.len() == 0),
    {
        self.data.len() == 0
    }
}

} // verus!

verus! {

/// Whether two identifiers are the same.
pub fn keys_equal(a: &Pubkey, b: &Pubkey) -> (r: bool)
    ensures
        r == (*a == *b),
{
    let mut i: usize = 0;
    while i < 32
        invariant
            0 <= i <= 32,
            forall|j: int| 0 <= j < i ==> a@[j] == b@[j],
        decreases 32 - i,
    {
        if a[i] != b[i] {
            return false;
        }
        i = i + 1;
    }
    assert(*a =~= *b);
    true
}

} // verus!

verus! {

/// Two identifiers are the same exactly when their bytes are.
pub proof fn lemma_key_view(a: Pubkey, b: Pubkey)
    ensures
        (a@ == b@) == (a == b),
{
    if a@ == b@ {
        assert(a =~= b);
    }
}

} // verus!
