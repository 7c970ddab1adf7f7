use std::collections::HashMap;

use escrow::account::{AccountView, Pubkey};
use escrow::entrypoint::process_instruction;
use escrow::error::EscrowError;
use escrow::instructions::{Action, MakeEscrow, Plan, ProgramInstruction};
use escrow::make::process_make_instruction;
use escrow::refund::process_refund_instructions;
use escrow::state::{Escrow, ESCROW_LEN};
use escrow::take::process_take_instruction;
use escrow::token::{holding_of, mint_decimals, MINT_LEN, TOKEN_ACCOUNT_LEN};

const PROGRAM: Pubkey = [7u8; 32];
const TOKEN: Pubkey = [9u8; 32];
const SYSTEM: Pubkey = [0u8; 32];

fn key(n: u8) -> Pubkey {
    let mut k = [0u8; 32];
    k[0] = n;
    k[31] = 0xAA;
    k
}

fn plain(k: Pubkey) -> AccountView {
    AccountView { key: k, owner: SYSTEM, is_signer: false, lamports: 0, data: vec![] }
}

fn signer(k: Pubkey) -> AccountView {
    AccountView { key: k, owner: SYSTEM, is_signer: true, lamports: 1_000_000, data: vec![] }
}

fn mint(k: Pubkey, decimals: u8) -> AccountView {
    let mut data = vec![0u8; MINT_LEN];
    data[44] = decimals;
    data[45] = 1;
    AccountView { key: k, owner: TOKEN, is_signer: false, lamports: 0, data }
}

fn holding(k: Pubkey, mint_key: Pubkey, holder: Pubkey) -> AccountView {
    let mut data = vec![0u8; TOKEN_ACCOUNT_LEN];
    data[0..32].copy_from_slice(&mint_key);
    data[32..64].copy_from_slice(&holder);
    AccountView { key: k, owner: TOKEN, is_signer: false, lamports: 0, data }
}

fn payload(seed: u8, mint_a: Pubkey, mint_b: Pubkey, amount: u64, bump: u8) -> Vec<u8> {
    let mut v = vec![seed];
    v.extend_from_slice(&mint_a);
    v.extend_from_slice(&mint_b);
    v.extend_from_slice(&amount.to_le_bytes());
    v.extend_from_slice(&[0u8; 32]);
    v.push(bump);
    v
}

// Roles of the scenario.
const MAKER: u8 = 1;
const TAKER: u8 = 2;
const MINT_A: u8 = 3;
const MINT_B: u8 = 4;
const MAKER_A: u8 = 5;
const MAKER_B: u8 = 6;
const TAKER_A: u8 = 7;
const TAKER_B: u8 = 8;
const ESCROW: u8 = 10;
const VAULT: u8 = 11;
const RENT: u8 = 12;

/// A stand-in for the runtime and the token program: holding balances,
/// program records, and every account's current view.
struct World {
    balances: HashMap<Pubkey, u64>,
    records: HashMap<Pubkey, Vec<u8>>,
    holders: HashMap<Pubkey, (Pubkey, Pubkey)>,
}

impl World {
    fn new() -> World {
        World { balances: HashMap::new(), records: HashMap::new(), holders: HashMap::new() }
    }

    fn open(&mut self, k: Pubkey, mint_key: Pubkey, holder: Pubkey, amount: u64) {
        self.balances.insert(k, amount);
        self.holders.insert(k, (mint_key, holder));
    }

    fn view(&self, k: Pubkey, is_signer: bool) -> AccountView {
        if let Some(d) = self.records.get(&k) {
            return AccountView { key: k, owner: PROGRAM, is_signer, lamports: 1, data: d.clone() };
        }
        if let Some((m, h)) = self.holders.get(&k) {
            let mut v = holding(k, *m, *h);
            v.is_signer = is_signer;
            return v;
        }
        if k == key(MINT_A) {
            return mint(k, 6);
        }
        if k == key(MINT_B) {
            return mint(k, 9);
        }
        AccountView { key: k, owner: SYSTEM, is_signer, lamports: 1, data: vec![] }
    }

    /// Carries out a plan on a copy and keeps it only if every action
    /// succeeds.
    fn run(&mut self, accounts: &[AccountView], plan: &Plan) -> bool {
        let mut balances = self.balances.clone();
        let mut records = self.records.clone();
        let mut holders = self.holders.clone();
        for a in &plan.actions {
            match a {
                Action::CreateAccount { to, space, .. } => {
                    let k = accounts[*to].key;
                    if records.contains_key(&k) {
                        return false;
                    }
                    records.insert(k, vec![0u8; *space as usize]);
                }
                Action::WriteData { account, data } => {
                    let k = accounts[*account].key;
                    match records.get_mut(&k) {
                        Some(d) if d.len() == data.len() => d.copy_from_slice(data),
                        _ => return false,
                    }
                }
                Action::InitializeAccount { account, mint, owner, .. } => {
                    let k = accounts[*account].key;
                    if balances.contains_key(&k) {
                        return false;
                    }
                    balances.insert(k, 0);
                    holders.insert(k, (accounts[*mint].key, accounts[*owner].key));
                }
                Action::TransferChecked { from, to, amount, .. } => {
                    let (kf, kt) = (accounts[*from].key, accounts[*to].key);
                    let (Some(&bf), Some(&bt)) = (balances.get(&kf), balances.get(&kt)) else {
                        return false;
                    };
                    if bf < *amount {
                        return false;
                    }
                    balances.insert(kf, bf - amount);
                    balances.insert(kt, bt + amount);
                }
                Action::CloseAccount { account, .. } => {
                    let k = accounts[*account].key;
                    if balances.get(&k) != Some(&0) {
                        return false;
                    }
                    balances.remove(&k);
                    holders.remove(&k);
                }
                Action::CloseProgramAccount { account, .. } => {
                    if records.remove(&accounts[*account].key).is_none() {
                        return false;
                    }
                }
            }
        }
        self.balances = balances;
        self.records = records;
        self.holders = holders;
        true
    }

    fn make_accounts(&self) -> Vec<AccountView> {
        vec![
            self.view(key(MAKER), true),
            self.view(key(MINT_A), false),
            self.view(key(MINT_B), false),
            self.view(key(MAKER_A), false),
            self.view(key(ESCROW), false),
            self.view(key(VAULT), false),
            plain(key(RENT)),
            plain(TOKEN),
            plain(SYSTEM),
        ]
    }

    fn take_accounts(&self, maker: u8) -> Vec<AccountView> {
        vec![
            self.view(key(TAKER), true),
            self.view(key(maker), false),
            self.view(key(MINT_A), false),
            self.view(key(MINT_B), false),
            self.view(key(TAKER_A), false),
            self.view(key(TAKER_B), false),
            self.view(key(MAKER_B), false),
            self.view(key(ESCROW), false),
            self.view(key(VAULT), false),
            plain(key(RENT)),
            plain(TOKEN),
            plain(SYSTEM),
        ]
    }

    fn refund_accounts(&self, signer_role: u8) -> Vec<AccountView> {
        vec![
            self.view(key(signer_role), true),
            self.view(key(MINT_A), false),
            self.view(key(MAKER_A), false),
            self.view(key(ESCROW), false),
            self.view(key(VAULT), false),
            plain(key(RENT)),
            plain(TOKEN),
            plain(SYSTEM),
        ]
    }

    fn balance(&self, role: u8) -> Option<u64> {
        self.balances.get(&key(role)).copied()
    }
}

fn make_call(w: &World, seed: u8, amount: u64) -> (Vec<AccountView>, Result<Plan, EscrowError>) {
    let accounts = w.make_accounts();
    let data = payload(seed, key(MINT_A), key(MINT_B), amount, 254);
    let r = process_make_instruction(&accounts, &data, &PROGRAM, &TOKEN, 1_000, Some(254));
    (accounts, r)
}

fn funded_world() -> World {
    let mut w = World::new();
    w.open(key(MAKER_A), key(MINT_A), key(MAKER), 5_000);
    w.open(key(TAKER_B), key(MINT_B), key(TAKER), 2_000);
    w
}

#[test]
fn discriminator_decodes() {
    assert_eq!(ProgramInstruction::try_from(&0), Ok(ProgramInstruction::MakeInstruction));
    assert_eq!(ProgramInstruction::try_from(&1), Ok(ProgramInstruction::TakeInstruction));
    assert_eq!(ProgramInstruction::try_from(&2), Ok(ProgramInstruction::RefundInstruction));
    assert_eq!(ProgramInstruction::try_from(&3), Err(EscrowError::InvalidInstructionData));
    assert_eq!(ProgramInstruction::try_from(&255), Err(EscrowError::InvalidInstructionData));
}

#[test]
fn payload_decodes_fields() {
    let data = payload(1, key(MINT_A), key(MINT_B), 0x0102_0304_0506_0708, 250);
    let ix = MakeEscrow::from_bytes(&data).unwrap();
    assert_eq!(ix.seed, 1);
    assert_eq!(ix.mint_a, key(MINT_A));
    assert_eq!(ix.mint_b, key(MINT_B));
    assert_eq!(ix.recieve_amount, 0x0102_0304_0506_0708);
    assert_eq!(ix.data, [0u8; 32]);
    assert_eq!(ix.bump, 250);
    assert_eq!(MakeEscrow::from_bytes(&data[..105]), Err(EscrowError::InvalidInstructionData));
    assert_eq!(MakeEscrow::from_bytes(&[]), Err(EscrowError::InvalidInstructionData));
}

#[test]
fn record_layout_is_packed_little_endian() {
    let e = Escrow {
        seed: 3,
        mint_a: key(MINT_A),
        mint_b: key(MINT_B),
        maker: key(MAKER),
        receive_amount: 0x1122_3344_5566_7788,
        bump: 200,
    };
    let b = e.to_bytes();
    assert_eq!(b.len(), ESCROW_LEN);
    assert_eq!(b[0], 3);
    assert_eq!(&b[1..33], &key(MINT_A));
    assert_eq!(&b[33..65], &key(MINT_B));
    assert_eq!(&b[65..97], &key(MAKER));
    assert_eq!(&b[97..105], &[0x88, 0x77, 0x66, 0x55, 0x44, 0x33, 0x22, 0x11]);
    assert_eq!(b[105], 200);
    assert_eq!(Escrow::from_bytes(&b), Ok(e));
    assert_eq!(Escrow::from_bytes(&b[..100]), Err(EscrowError::InvalidAccountData));
}

#[test]
fn record_read_checks_length_and_owner() {
    let e = Escrow { seed: 1, mint_a: key(3), mint_b: key(4), maker: key(1), receive_amount: 9, bump: 1 };
    let mut acc = AccountView { key: key(ESCROW), owner: PROGRAM, is_signer: false, lamports: 1, data: e.to_bytes() };
    assert_eq!(Escrow::from_account_info(&acc, &PROGRAM), Ok(e));
    assert_eq!(Escrow::from_account_info_readable(&acc, &PROGRAM), Ok(e));
    acc.owner = SYSTEM;
    assert_eq!(Escrow::from_account_info(&acc, &PROGRAM), Err(EscrowError::InvalidAccountOwner));
    acc.owner = PROGRAM;
    acc.data.push(0);
    assert_eq!(Escrow::from_account_info_readable(&acc, &PROGRAM), Err(EscrowError::InvalidAccountData));
    acc.data.clear();
    assert_eq!(Escrow::from_account_info(&acc, &PROGRAM), Err(EscrowError::InvalidAccountData));
}

#[test]
fn initialize_fills_zeroed_slot_with_signer_as_maker() {
    let ix = MakeEscrow::from_bytes(&payload(5, key(MINT_A), key(MINT_B), 77, 9)).unwrap();
    let mut acc = AccountView { key: key(ESCROW), owner: PROGRAM, is_signer: false, lamports: 1, data: vec![0u8; ESCROW_LEN] };
    assert_eq!(Escrow::intialize(&mut acc, &key(MAKER), &ix), Ok(()));
    let e = Escrow::from_account_info(&acc, &PROGRAM).unwrap();
    assert_eq!(e, Escrow { seed: 5, mint_a: key(MINT_A), mint_b: key(MINT_B), maker: key(MAKER), receive_amount: 77, bump: 9 });
    let mut short = plain(key(ESCROW));
    assert_eq!(Escrow::intialize(&mut short, &key(MAKER), &ix), Err(EscrowError::InvalidAccountData));
    assert!(short.data.is_empty());
}

#[test]
fn seed_material_is_tag_maker_seed_bump() {
    let s = Escrow::signer_seeds(&key(MAKER), 1, 253);
    assert_eq!(s, vec![b"escrow".to_vec(), key(MAKER).to_vec(), vec![1u8], vec![253u8]]);
    assert_ne!(Escrow::signer_seeds(&key(MAKER), 2, 253), s);
    assert_ne!(Escrow::signer_seeds(&key(MAKER), 1, 252), s);
    assert_ne!(Escrow::signer_seeds(&key(TAKER), 1, 253), s);
}

#[test]
fn address_check_matches_derivation_only() {
    assert_eq!(Escrow::validate_pda(Some(key(ESCROW)), &key(ESCROW)), Ok(()));
    let mut other = key(ESCROW);
    other[17] ^= 1;
    assert_eq!(Escrow::validate_pda(Some(other), &key(ESCROW)), Err(EscrowError::InvalidSeeds));
    assert_eq!(Escrow::validate_pda(None, &key(ESCROW)), Err(EscrowError::InvalidSeeds));
}

#[test]
fn token_layout_reads() {
    assert_eq!(mint_decimals(&mint(key(MINT_A), 6), &TOKEN), Ok(6));
    let mut m = mint(key(MINT_A), 6);
    m.owner = SYSTEM;
    assert_eq!(mint_decimals(&m, &TOKEN), Err(EscrowError::InvalidAccountOwner));
    let mut m = mint(key(MINT_A), 6);
    m.data.pop();
    assert_eq!(mint_decimals(&m, &TOKEN), Err(EscrowError::InvalidAccountData));
    let h = holding(key(VAULT), key(MINT_A), key(ESCROW));
    assert!(holding_of(&h, &TOKEN, &key(MINT_A), &key(ESCROW)));
    assert!(!holding_of(&h, &TOKEN, &key(MINT_B), &key(ESCROW)));
    assert!(!holding_of(&h, &TOKEN, &key(MINT_A), &key(MAKER)));
    assert!(!holding_of(&h, &SYSTEM, &key(MINT_A), &key(ESCROW)));
}

#[test]
fn make_plans_record_and_deposit() {
    let w = funded_world();
    let (_, r) = make_call(&w, 1, 1000);
    let plan = r.unwrap();
    assert_eq!(plan.signer_seeds, Escrow::signer_seeds(&key(MAKER), 1, 254));
    let record = Escrow { seed: 1, mint_a: key(MINT_A), mint_b: key(MINT_B), maker: key(MAKER), receive_amount: 1000, bump: 254 };
    assert_eq!(
        plan.actions,
        vec![
            Action::CreateAccount { from: 0, to: 4, program: PROGRAM, space: ESCROW_LEN as u64, lamports: 1_000 },
            Action::WriteData { account: 4, data: record.to_bytes() },
            Action::InitializeAccount { account: 5, mint: 1, owner: 4, rent_sysvar: 6 },
            Action::TransferChecked { from: 3, mint: 1, to: 5, authority: 0, amount: 1000, decimals: 6 },
        ]
    );
}

#[test]
fn make_refusals() {
    let w = funded_world();
    let data = payload(1, key(MINT_A), key(MINT_B), 10, 254);
    let good = w.make_accounts();
    assert_eq!(process_make_instruction(&good[..8], &data, &PROGRAM, &TOKEN, 1, Some(254)).unwrap_err(), EscrowError::NotEnoughAccountKeys);
    let mut a = good.clone_views();
    a[0].is_signer = false;
    assert_eq!(process_make_instruction(&a, &data, &PROGRAM, &TOKEN, 1, Some(254)).unwrap_err(), EscrowError::MissingRequiredSignature);
    assert_eq!(process_make_instruction(&good, &data[..50], &PROGRAM, &TOKEN, 1, Some(254)).unwrap_err(), EscrowError::InvalidInstructionData);
    let mut a = good.clone_views();
    a[2].owner = SYSTEM;
    assert_eq!(process_make_instruction(&a, &data, &PROGRAM, &TOKEN, 1, Some(254)).unwrap_err(), EscrowError::InvalidAccountOwner);
    let mut a = good.clone_views();
    a[1].data.truncate(10);
    assert_eq!(process_make_instruction(&a, &data, &PROGRAM, &TOKEN, 1, Some(254)).unwrap_err(), EscrowError::InvalidAccountData);
    let mut a = good.clone_views();
    a[5] = holding(key(VAULT), key(MINT_A), key(MAKER));
    assert_eq!(process_make_instruction(&a, &data, &PROGRAM, &TOKEN, 1, Some(254)).unwrap_err(), EscrowError::InvalidAccountOwner);
    let mut a = good.clone_views();
    a[5] = holding(key(VAULT), key(MINT_B), key(ESCROW));
    assert_eq!(process_make_instruction(&a, &data, &PROGRAM, &TOKEN, 1, Some(254)).unwrap_err(), EscrowError::InvalidAccountOwner);
    let mut a = good.clone_views();
    a[5] = holding(key(VAULT), key(MINT_A), key(ESCROW));
    let plan = process_make_instruction(&a, &data, &PROGRAM, &TOKEN, 1, Some(254)).unwrap();
    assert_eq!(plan.actions.len(), 3);
}

#[test]
fn make_twice_is_already_initialized() {
    let mut w = funded_world();
    let (accounts, r) = make_call(&w, 1, 1000);
    assert!(w.run(&accounts, &r.unwrap()));
    let (_, again) = make_call(&w, 1, 1000);
    assert_eq!(again.unwrap_err(), EscrowError::AccountAlreadyInitialized);
}

#[test]
fn make_refuses_other_than_canonical_bump() {
    let w = funded_world();
    let accounts = w.make_accounts();
    let data = payload(1, key(MINT_A), key(MINT_B), 1000, 253);
    assert_eq!(process_make_instruction(&accounts, &data, &PROGRAM, &TOKEN, 1, Some(254)).unwrap_err(), EscrowError::InvalidSeeds);
    assert_eq!(process_make_instruction(&accounts, &data, &PROGRAM, &TOKEN, 1, None).unwrap_err(), EscrowError::InvalidSeeds);
    assert!(process_make_instruction(&accounts, &data, &PROGRAM, &TOKEN, 1, Some(253)).is_ok());
}

#[test]
fn scenario_create_then_fulfil() {
    let mut w = funded_world();
    let (accounts, r) = make_call(&w, 1, 1000);
    assert!(w.run(&accounts, &r.unwrap()));
    assert_eq!(w.balance(VAULT), Some(1000));
    assert_eq!(w.balance(MAKER_A), Some(4000));
    let stored = Escrow::from_account_info(&w.view(key(ESCROW), false), &PROGRAM).unwrap();
    assert_eq!(stored.maker, key(MAKER));
    assert_eq!(stored.receive_amount, 1000);

    // The same amount moves on both legs.
    w.open(key(TAKER_B), key(MINT_B), key(TAKER), 1000);
    let accounts = w.take_accounts(MAKER);
    let plan = process_take_instruction(&accounts, &[], &PROGRAM, &TOKEN).unwrap();
    assert_eq!(
        plan.actions,
        vec![
            Action::InitializeAccount { account: 6, mint: 3, owner: 1, rent_sysvar: 9 },
            Action::InitializeAccount { account: 4, mint: 2, owner: 0, rent_sysvar: 9 },
            Action::TransferChecked { from: 8, mint: 2, to: 4, authority: 7, amount: 1000, decimals: 6 },
            Action::TransferChecked { from: 5, mint: 3, to: 6, authority: 0, amount: 1000, decimals: 9 },
            Action::CloseAccount { account: 8, destination: 1, authority: 7 },
            Action::CloseProgramAccount { account: 7, destination: 1 },
        ]
    );
    assert!(w.run(&accounts, &plan));
    assert_eq!(w.balance(TAKER_A), Some(1000));
    assert_eq!(w.balance(MAKER_B), Some(1000));
    assert_eq!(w.balance(TAKER_B), Some(0));
    assert_eq!(w.balance(VAULT), None);
    assert!(!w.records.contains_key(&key(ESCROW)));

    // A closed escrow can be neither fulfilled nor cancelled.
    let again = w.take_accounts(MAKER);
    assert_eq!(process_take_instruction(&again, &[], &PROGRAM, &TOKEN).unwrap_err(), EscrowError::InvalidAccountData);
    let again = w.refund_accounts(MAKER);
    assert_eq!(process_refund_instructions(&again, &[], &PROGRAM, &TOKEN).unwrap_err(), EscrowError::InvalidAccountData);
}

#[test]
fn fulfil_with_too_little_b_changes_nothing() {
    let mut w = funded_world();
    let (accounts, r) = make_call(&w, 1, 1000);
    assert!(w.run(&accounts, &r.unwrap()));
    w.open(key(TAKER_B), key(MINT_B), key(TAKER), 999);
    let accounts = w.take_accounts(MAKER);
    let plan = process_take_instruction(&accounts, &[], &PROGRAM, &TOKEN).unwrap();
    let before = w.balances.clone();
    assert!(!w.run(&accounts, &plan));
    assert_eq!(w.balances, before);
    assert_eq!(w.balance(VAULT), Some(1000));
    assert_eq!(w.balance(TAKER_B), Some(999));
    assert!(w.records.contains_key(&key(ESCROW)));
}

#[test]
fn fulfil_refusals() {
    let mut w = funded_world();
    let (accounts, r) = make_call(&w, 1, 1000);
    assert!(w.run(&accounts, &r.unwrap()));
    let good = w.take_accounts(MAKER);
    assert_eq!(process_take_instruction(&good[..11], &[], &PROGRAM, &TOKEN).unwrap_err(), EscrowError::NotEnoughAccountKeys);
    let mut a = good.clone_views();
    a[0].is_signer = false;
    assert_eq!(process_take_instruction(&a, &[], &PROGRAM, &TOKEN).unwrap_err(), EscrowError::MissingRequiredSignature);
    let a = w.take_accounts(TAKER);
    assert_eq!(process_take_instruction(&a, &[], &PROGRAM, &TOKEN).unwrap_err(), EscrowError::IncorrectAuthority);
    let mut a = good.clone_views();
    a[7].owner = SYSTEM;
    assert_eq!(process_take_instruction(&a, &[], &PROGRAM, &TOKEN).unwrap_err(), EscrowError::InvalidAccountOwner);
    let mut a = good.clone_views();
    a[3] = mint(key(42), 9);
    assert_eq!(process_take_instruction(&a, &[], &PROGRAM, &TOKEN).unwrap_err(), EscrowError::InvalidAccountData);
}

#[test]
fn fulfil_pays_only_the_makers_b_account() {
    let mut w = funded_world();
    let (accounts, r) = make_call(&w, 1, 1000);
    assert!(w.run(&accounts, &r.unwrap()));
    w.open(key(MAKER_B), key(MINT_B), key(TAKER), 0);
    let a = w.take_accounts(MAKER);
    assert_eq!(process_take_instruction(&a, &[], &PROGRAM, &TOKEN).unwrap_err(), EscrowError::InvalidAccountOwner);
    w.open(key(MAKER_B), key(MINT_A), key(MAKER), 0);
    let a = w.take_accounts(MAKER);
    assert_eq!(process_take_instruction(&a, &[], &PROGRAM, &TOKEN).unwrap_err(), EscrowError::InvalidAccountOwner);
    w.open(key(MAKER_B), key(MINT_B), key(MAKER), 0);
    let a = w.take_accounts(MAKER);
    let plan = process_take_instruction(&a, &[], &PROGRAM, &TOKEN).unwrap();
    assert_eq!(plan.actions.len(), 5);
    let mut a = w.take_accounts(MAKER);
    a[8] = holding(key(VAULT), key(MINT_A), key(TAKER));
    assert_eq!(process_take_instruction(&a, &[], &PROGRAM, &TOKEN).unwrap_err(), EscrowError::InvalidAccountOwner);
}

#[test]
fn scenario_create_then_cancel() {
    let mut w = funded_world();
    let (accounts, r) = make_call(&w, 1, 1000);
    assert!(w.run(&accounts, &r.unwrap()));
    assert_eq!(w.balance(MAKER_A), Some(4000));

    let accounts = w.refund_accounts(MAKER);
    let plan = process_refund_instructions(&accounts, &[], &PROGRAM, &TOKEN).unwrap();
    assert_eq!(
        plan.actions,
        vec![
            Action::TransferChecked { from: 4, mint: 1, to: 2, authority: 3, amount: 1000, decimals: 6 },
            Action::CloseAccount { account: 4, destination: 0, authority: 3 },
            Action::CloseProgramAccount { account: 3, destination: 0 },
        ]
    );
    assert_eq!(plan.signer_seeds, Escrow::signer_seeds(&key(MAKER), 1, 254));
    assert!(w.run(&accounts, &plan));
    assert_eq!(w.balance(MAKER_A), Some(5000));
    assert_eq!(w.balance(VAULT), None);
    assert!(!w.records.contains_key(&key(ESCROW)));
}

#[test]
fn cancel_by_non_maker_is_refused() {
    let mut w = funded_world();
    let (accounts, r) = make_call(&w, 1, 1000);
    assert!(w.run(&accounts, &r.unwrap()));
    let a = w.refund_accounts(TAKER);
    assert_eq!(process_refund_instructions(&a, &[], &PROGRAM, &TOKEN).unwrap_err(), EscrowError::IncorrectAuthority);
    let mut a = w.refund_accounts(MAKER);
    a[0].is_signer = false;
    assert_eq!(process_refund_instructions(&a, &[], &PROGRAM, &TOKEN).unwrap_err(), EscrowError::MissingRequiredSignature);
    let mut a = w.refund_accounts(MAKER);
    a[4] = holding(key(VAULT), key(MINT_A), key(MAKER));
    assert_eq!(process_refund_instructions(&a, &[], &PROGRAM, &TOKEN).unwrap_err(), EscrowError::InvalidAccountOwner);
    let mut a = w.refund_accounts(MAKER);
    a[2] = holding(key(MAKER_A), key(MINT_A), key(TAKER));
    assert_eq!(process_refund_instructions(&a, &[], &PROGRAM, &TOKEN).unwrap_err(), EscrowError::InvalidAccountOwner);
    let mut a = w.refund_accounts(MAKER);
    a[2] = holding(key(MAKER_A), key(MINT_B), key(MAKER));
    assert_eq!(process_refund_instructions(&a, &[], &PROGRAM, &TOKEN).unwrap_err(), EscrowError::InvalidAccountOwner);
    let a = w.refund_accounts(MAKER);
    assert_eq!(process_refund_instructions(&a[..7], &[], &PROGRAM, &TOKEN).unwrap_err(), EscrowError::NotEnoughAccountKeys);
}

#[test]
fn dispatch_by_first_byte() {
    let mut w = funded_world();
    let accounts = w.make_accounts();
    let mut data = vec![0u8];
    data.extend(payload(1, key(MINT_A), key(MINT_B), 1000, 254));
    let plan = process_instruction(&accounts, &data, &PROGRAM, &TOKEN, 1_000, Some(254)).unwrap();
    assert_eq!(plan.actions.len(), 4);
    assert!(w.run(&accounts, &plan));
    assert_eq!(process_instruction(&accounts, &[], &PROGRAM, &TOKEN, 1, Some(254)).unwrap_err(), EscrowError::InvalidInstructionData);
    assert_eq!(process_instruction(&accounts, &[3], &PROGRAM, &TOKEN, 1, Some(254)).unwrap_err(), EscrowError::InvalidInstructionData);
    let refund = w.refund_accounts(MAKER);
    let plan = process_instruction(&refund, &[2], &PROGRAM, &TOKEN, 1, Some(254)).unwrap();
    assert_eq!(plan.actions.len(), 3);
    let take = w.take_accounts(MAKER);
    let plan = process_instruction(&take, &[1], &PROGRAM, &TOKEN, 1, Some(254)).unwrap();
    assert_eq!(plan.actions.len(), 6);
}

trait CloneViews {
    fn clone_views(&self) -> Vec<AccountView>;
}

impl CloneViews for Vec<AccountView> {
    fn clone_views(&self) -> Vec<AccountView> {
        self.iter()
            .map(|a| AccountView { key: a.key, owner: a.owner, is_signer: a.is_signer, lamports: a.lamports, data: a.data.clone() })
            .collect()
    }
}
