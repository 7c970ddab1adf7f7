use vstd::prelude::*;
use crate::account::{AccountView, Pubkey};
use crate::instructions::{Action, MakeEscrow, make_payload_matches};
use crate::error::EscrowError;
use crate::make::{is_make_plan, make_refusal};
use crate::refund::{is_refund_plan, refund_refusal};
use crate::state::{Escrow, escrow_bytes, lemma_escrow_bytes_injective, record_of, seed_material};
use crate::token::is_holding;
use crate::take::{is_take_plan, take_refusal};

verus! {

/// The state that plans act on, as the custody subsystem and the runtime
/// present it: the open holding accounts with their balances, and the
/// allocated accounts of this program with their data.
pub struct Ledger {
    pub holdings: Map<Pubkey, nat>,
    pub records: Map<Pubkey, Seq<u8>>,
}

/// The identifier of the account at position `i`.
pub open spec fn key_at(accounts: Seq<AccountView>, i: usize) -> Pubkey {
    accounts[i as int].key
}

/// What one action does; `None` where the runtime or the custody subsystem
/// refuses it, which undoes the whole call.
pub open spec fn step(l: Ledger, accounts: Seq<AccountView>, a: Action) -> Option<Ledger> {
    match a {
        Action::CreateAccount { from, to, program, space, lamports } => {
            if to < accounts.len() && !l.records.contains_key(key_at(accounts, to)) {
                Some(
                    Ledger {
                        holdings: l.holdings,
                        records: l.records.insert(
                            key_at(accounts, to),
                            Seq::new(space as nat, |i: int| 0u8),
                        ),
                    },
                )
            } else {
                None
            }
        },
        Action::WriteData { account, data } => {
            if account < accounts.len() && l.records.contains_key(key_at(accounts, account))
                && l.records[key_at(accounts, account)].len() == data@.len() {
                Some(
                    Ledger {
                        holdings: l.holdings,
                        records: l.records.insert(key_at(accounts, account), data@),
                    },
                )
            } else {
                None
            }
        },
        Action::InitializeAccount { account, mint, owner, rent_sysvar } => {
            if account < accounts.len() && !l.holdings.contains_key(key_at(accounts, account)) {
                Some(
                    Ledger {
                        holdings: l.holdings.insert(key_at(accounts, account), 0nat),
                        records: l.records,
                    },
                )
            } else {
                None
            }
        },
        Action::TransferChecked { from, mint, to, authority, amount, decimals } => {
            let kf = key_at(accounts, from);
            let kt = key_at(accounts, to);
            if from < accounts.len() && to < accounts.len() && l.holdings.contains_key(kf)
                && l.holdings.contains_key(kt) && l.holdings[kf] >= amount {
                if kf == kt {
                    Some(l)
                } else {
                    Some(
                        Ledger {
                            holdings: l.holdings.insert(kf, (l.holdings[kf] - amount) as nat).insert(
                                kt,
                                (l.holdings[kt] + amount) as nat,
                            ),
                            records: l.records,
                        },
                    )
                }
            } else {
                None
            }
        },
        Action::CloseAccount { account, destination, authority } => {
            let k = key_at(accounts, account);
            if account < accounts.len() && l.holdings.contains_key(k) && l.holdings[k] == 0 {
                Some(Ledger { holdings: l.holdings.remove(k), records: l.records })
            } else {
                None
            }
        },
        Action::CloseProgramAccount { account, destination } => {
            let k = key_at(accounts, account);
            if account < accounts.len() && l.records.contains_key(k) {
                Some(Ledger { holdings: l.holdings, records: l.records.remove(k) })
            } else {
                None
            }
        },
    }
}

/// What a plan does: every action in order, or nothing at all.
pub open spec fn run(l: Ledger, accounts: Seq<AccountView>, actions: Seq<Action>) -> Option<
    Ledger,
>
    decreases actions.len(),
{
    if actions.len() == 0 {
        Some(l)
    } else {
        match step(l, accounts, actions[0]) {
            Some(l1) => run(l1, accounts, actions.drop_first()),
            None => None,
        }
    }
}

/// A plan that runs takes its first action, then runs the rest.
pub proof fn lemma_run_first(l: Ledger, accounts: Seq<AccountView>, actions: Seq<Action>)
    requires
        actions.len() > 0,
    ensures
        step(l, accounts, actions[0]) is None ==> run(l, accounts, actions) is None,
        step(l, accounts, actions[0]) matches Some(l1) ==> run(l, accounts, actions) == run(
            l1,
            accounts,
            actions.drop_first(),
        ),
{
}

/// The four holding accounts that a fulfil moves value between (the
/// taker's A and B accounts, the maker's B account and the vault) are four
/// different accounts.
pub open spec fn take_holdings_distinct(accounts: Seq<AccountView>) -> bool {
    &&& accounts[4].key != accounts[5].key
    &&& accounts[4].key != accounts[6].key
    &&& accounts[4].key != accounts[8].key
    &&& accounts[5].key != accounts[6].key
    &&& accounts[5].key != accounts[8].key
    &&& accounts[6].key != accounts[8].key
}

/// Cancel gives back exactly the deposit, to the stored maker: once its plan
/// has run, the maker's A account holds `receive_amount` more, the vault
/// (which had to hold exactly that) and the record are gone.
pub proof fn lemma_refund_returns_deposit(
    p: crate::instructions::Plan,
    accounts: Seq<AccountView>,
    e: Escrow,
    l: Ledger,
    l2: Ledger,
)
    requires
        accounts.len() == 8,
        accounts[2].key != accounts[4].key,
        is_refund_plan(p, accounts, e),
        run(l, accounts, p.actions@) == Some(l2),
    ensures
        l.holdings.contains_key(accounts[4].key),
        l.holdings[accounts[4].key] == e.receive_amount,
        l2.holdings.contains_key(accounts[2].key),
        l2.holdings[accounts[2].key] == l.holdings[accounts[2].key] + e.receive_amount,
        !l2.holdings.contains_key(accounts[4].key),
        !l2.records.contains_key(accounts[3].key),
{
    let a = p.actions@;
    lemma_run_first(l, accounts, a);
    let l1 = step(l, accounts, a[0])->0;
    lemma_run_first(l1, accounts, a.drop_first());
    let l2a = step(l1, accounts, a[1])->0;
    lemma_run_first(l2a, accounts, a.drop_first().drop_first());
    let l3 = step(l2a, accounts, a[2])->0;
    assert(a.drop_first().drop_first().drop_first().len() == 0);
    assert(l3 == l2);
}

/// The last four actions of a fulfil: both legs, then the closing.
proof fn lemma_take_tail(
    accounts: Seq<AccountView>,
    amount: u64,
    da: u8,
    db: u8,
    t: Seq<Action>,
    l: Ledger,
    l2: Ledger,
)
    requires
        accounts.len() == 12,
        take_holdings_distinct(accounts),
        t.len() == 4,
        t[0] == (Action::TransferChecked {
            from: 8,
            mint: 2,
            to: 4,
            authority: 7,
            amount: amount,
            decimals: da,
        }),
        t[1] == (Action::TransferChecked {
            from: 5,
            mint: 3,
            to: 6,
            authority: 0,
            amount: amount,
            decimals: db,
        }),
        t[2] == (Action::CloseAccount { account: 8, destination: 1, authority: 7 }),
        t[3] == (Action::CloseProgramAccount { account: 7, destination: 1 }),
        run(l, accounts, t) == Some(l2),
    ensures
        l.holdings.contains_key(accounts[8].key),
        l.holdings[accounts[8].key] == amount,
        l.holdings.contains_key(accounts[5].key),
        l.holdings[accounts[5].key] >= amount,
        l.holdings.contains_key(accounts[4].key),
        l.holdings.contains_key(accounts[6].key),
        l2.holdings.contains_key(accounts[4].key),
        l2.holdings.contains_key(accounts[5].key),
        l2.holdings.contains_key(accounts[6].key),
        l2.holdings[accounts[4].key] == l.holdings[accounts[4].key] + amount,
        l2.holdings[accounts[5].key] == l.holdings[accounts[5].key] - amount,
        l2.holdings[accounts[6].key] == l.holdings[accounts[6].key] + amount,
        !l2.holdings.contains_key(accounts[8].key),
        !l2.records.contains_key(accounts[7].key),
{
    lemma_run_first(l, accounts, t);
    let l1 = step(l, accounts, t[0])->0;
    lemma_run_first(l1, accounts, t.drop_first());
    let l2a = step(l1, accounts, t[1])->0;
    lemma_run_first(l2a, accounts, t.drop_first().drop_first());
    let l3 = step(l2a, accounts, t[2])->0;
    lemma_run_first(l3, accounts, t.drop_first().drop_first().drop_first());
    let l4 = step(l3, accounts, t[3])->0;
    assert(t.drop_first().drop_first().drop_first().drop_first().len() == 0);
    assert(l4 == l2);
}

/// Fulfilment swaps exactly: once the plan of record `e` has run, the
/// account at the taker's A position and the one at the maker's B position
/// (which an accepted call ties to the maker: see `lemma_take_pays_maker`)
/// each hold `receive_amount` more (counting from zero where the plan opened them), the taker's B
/// account holds that much less, and the vault (which held exactly that)
/// and the record are gone.
pub proof fn lemma_take_swaps(
    p: crate::instructions::Plan,
    accounts: Seq<AccountView>,
    e: Escrow,
    l: Ledger,
    l2: Ledger,
)
    requires
        accounts.len() == 12,
        take_holdings_distinct(accounts),
        is_take_plan(p, accounts, e),
        run(l, accounts, p.actions@) == Some(l2),
    ensures
        ({
            let before_a = if accounts[4].data@.len() == 0 {
                0
            } else {
                l.holdings[accounts[4].key]
            };
            let before_b = if accounts[6].data@.len() == 0 {
                0
            } else {
                l.holdings[accounts[6].key]
            };
            &&& l.holdings.contains_key(accounts[8].key)
            &&& l.holdings[accounts[8].key] == e.receive_amount
            &&& l.holdings.contains_key(accounts[5].key)
            &&& l.holdings[accounts[5].key] >= e.receive_amount
            &&& l2.holdings.contains_key(accounts[4].key)
            &&& l2.holdings.contains_key(accounts[5].key)
            &&& l2.holdings.contains_key(accounts[6].key)
            &&& l2.holdings[accounts[4].key] == before_a + e.receive_amount
            &&& l2.holdings[accounts[5].key] == l.holdings[accounts[5].key] - e.receive_amount
            &&& l2.holdings[accounts[6].key] == before_b + e.receive_amount
            &&& !l2.holdings.contains_key(accounts[8].key)
            &&& !l2.records.contains_key(accounts[7].key)
        }),
{
    let a = p.actions@;
    let open_b = accounts[6].data@.len() == 0;
    let open_a = accounts[4].data@.len() == 0;
    let da = accounts[2].data@[crate::token::MINT_DECIMALS_AT as int];
    let db = accounts[3].data@[crate::token::MINT_DECIMALS_AT as int];
    if open_b && open_a {
        lemma_run_first(l, accounts, a);
        let l1 = step(l, accounts, a[0])->0;
        lemma_run_first(l1, accounts, a.drop_first());
        let lk = step(l1, accounts, a[1])->0;
        let t = a.drop_first().drop_first();
        lemma_take_tail(accounts, e.receive_amount, da, db, t, lk, l2);
    } else if open_b || open_a {
        lemma_run_first(l, accounts, a);
        let lk = step(l, accounts, a[0])->0;
        let t = a.drop_first();
        lemma_take_tail(accounts, e.receive_amount, da, db, t, lk, l2);
    } else {
        lemma_take_tail(accounts, e.receive_amount, da, db, a, l, l2);
    }
}

/// Fulfilment is all or nothing: where the taker's B account holds less
/// than `receive_amount`, the plan does not run, so no leg of the swap takes
/// effect and every holding stays as it was.
pub proof fn lemma_take_all_or_nothing(
    p: crate::instructions::Plan,
    accounts: Seq<AccountView>,
    e: Escrow,
    l: Ledger,
)
    requires
        accounts.len() == 12,
        take_holdings_distinct(accounts),
        is_take_plan(p, accounts, e),
        l.holdings.contains_key(accounts[5].key),
        l.holdings[accounts[5].key] < e.receive_amount,
    ensures
        run(l, accounts, p.actions@) is None,
{
    if run(l, accounts, p.actions@) is Some {
        lemma_take_swaps(p, accounts, e, l, run(l, accounts, p.actions@)->0);
    }
}

/// Creation stores the payload and fills the vault: once the plan for
/// payload `ix` has run, the record at the escrow's address holds the
/// payload's fields with the signer as maker, the vault holds
/// `recieve_amount` more (from zero where the plan opened it) and the
/// maker's A account that much less.
pub proof fn lemma_make_deposits(
    p: crate::instructions::Plan,
    accounts: Seq<AccountView>,
    ix: MakeEscrow,
    program_id: Pubkey,
    rent_lamports: u64,
    l: Ledger,
    l2: Ledger,
)
    requires
        accounts.len() >= 9,
        accounts[3].key != accounts[5].key,
        is_make_plan(p, accounts, ix, program_id, rent_lamports),
        run(l, accounts, p.actions@) == Some(l2),
    ensures
        ({
            let before_vault = if accounts[5].data@.len() == 0 {
                0
            } else {
                l.holdings[accounts[5].key]
            };
            &&& !l.records.contains_key(accounts[4].key)
            &&& l2.records.contains_key(accounts[4].key)
            &&& l2.records[accounts[4].key] == escrow_bytes(record_of(ix, accounts[0].key))
            &&& l.holdings.contains_key(accounts[3].key)
            &&& l.holdings[accounts[3].key] >= ix.recieve_amount
            &&& l2.holdings.contains_key(accounts[3].key)
            &&& l2.holdings.contains_key(accounts[5].key)
            &&& l2.holdings[accounts[3].key] == l.holdings[accounts[3].key] - ix.recieve_amount
            &&& l2.holdings[accounts[5].key] == before_vault + ix.recieve_amount
        }),
{
    let a = p.actions@;
    crate::state::lemma_escrow_fields(record_of(ix, accounts[0].key));
    lemma_run_first(l, accounts, a);
    let l1 = step(l, accounts, a[0])->0;
    lemma_run_first(l1, accounts, a.drop_first());
    let l2a = step(l1, accounts, a[1])->0;
    let t = a.drop_first().drop_first();
    lemma_run_first(l2a, accounts, t);
    if accounts[5].data@.len() == 0 {
        let l3 = step(l2a, accounts, t[0])->0;
        lemma_run_first(l3, accounts, t.drop_first());
        let l4 = step(l3, accounts, t.drop_first()[0])->0;
        assert(t.drop_first().drop_first().len() == 0);
        assert(l4 == l2);
    } else {
        let l3 = step(l2a, accounts, t[0])->0;
        assert(t.drop_first().len() == 0);
        assert(l3 == l2);
    }
}

/// Creation is exclusive: once a create has run, a second create that
/// names the same escrow address (the same maker and seed) sees the record
/// there and is refused as already initialised.
pub proof fn lemma_make_twice_refused(
    p: crate::instructions::Plan,
    accounts: Seq<AccountView>,
    ix: MakeEscrow,
    program_id: Pubkey,
    rent_lamports: u64,
    l: Ledger,
    l2: Ledger,
    again: Seq<AccountView>,
    data: Seq<u8>,
    token_program: Pubkey,
    canonical_bump: Option<u8>,
)
    requires
        accounts.len() >= 9,
        accounts[3].key != accounts[5].key,
        is_make_plan(p, accounts, ix, program_id, rent_lamports),
        run(l, accounts, p.actions@) == Some(l2),
        again.len() >= 9,
        again[0].is_signer,
        again[4].key == accounts[4].key,
        again[4].data@ == l2.records[again[4].key],
    ensures
        make_refusal(again, data, token_program, canonical_bump) == Some(EscrowError::AccountAlreadyInitialized),
{
    lemma_make_deposits(p, accounts, ix, program_id, rent_lamports, l, l2);
    crate::state::lemma_escrow_fields(record_of(ix, accounts[0].key));
}

/// A closed escrow cannot be fulfilled: its slot holds no record, and the
/// signed call is refused for the record's layout.
pub proof fn lemma_take_closed_refused(
    accounts: Seq<AccountView>,
    program_id: Pubkey,
    token_program: Pubkey,
)
    requires
        accounts.len() == 12,
        accounts[0].is_signer,
        accounts[7].data@.len() == 0,
    ensures
        take_refusal(accounts, program_id, token_program) == Some(EscrowError::InvalidAccountData),
{
}

/// A closed escrow cannot be cancelled: its slot holds no record, and the
/// signed call is refused for the record's layout.
pub proof fn lemma_refund_closed_refused(
    accounts: Seq<AccountView>,
    program_id: Pubkey,
    token_program: Pubkey,
)
    requires
        accounts.len() == 8,
        accounts[0].is_signer,
        accounts[3].data@.len() == 0,
    ensures
        refund_refusal(accounts, program_id, token_program) == Some(
            EscrowError::InvalidAccountData,
        ),
{
}

/// Only the stored maker can cancel: a signer other than the maker stored
/// in a valid record is refused as the wrong authority, and an accepted
/// cancel is one whose signer is the stored maker, whose deposit comes from
/// the record's own holding of asset A and goes to the maker's own holding
/// of asset A.
pub proof fn lemma_refund_only_maker(
    accounts: Seq<AccountView>,
    program_id: Pubkey,
    token_program: Pubkey,
    e: Escrow,
)
    requires
        accounts.len() == 8,
        escrow_bytes(e) == accounts[3].data@,
    ensures
        accounts[0].is_signer && accounts[3].owner == program_id && accounts[1].owner
            == token_program && is_holding(accounts[4], token_program, accounts[1].key, accounts[3].key)
            && accounts[0].key != e.maker ==> refund_refusal(accounts, program_id, token_program)
            == Some(EscrowError::IncorrectAuthority),
        refund_refusal(accounts, program_id, token_program) is None ==> accounts[0].key == e.maker
            && is_holding(accounts[2], token_program, e.mint_a, e.maker) && is_holding(
            accounts[4],
            token_program,
            e.mint_a,
            accounts[3].key,
        ),
{
    crate::account::lemma_key_view(accounts[1].key, e.mint_a);
    crate::state::lemma_escrow_fields(e);
    crate::account::lemma_key_view(accounts[0].key, e.maker);
}

/// Cancelling right after creating gives everything back: the maker's A
/// account holds what it held before the create, and neither the vault nor
/// the record is left.
pub proof fn lemma_make_then_refund(
    p1: crate::instructions::Plan,
    make_accounts: Seq<AccountView>,
    ix: MakeEscrow,
    program_id: Pubkey,
    rent_lamports: u64,
    p2: crate::instructions::Plan,
    refund_accounts: Seq<AccountView>,
    e: Escrow,
    l0: Ledger,
    l1: Ledger,
    l2: Ledger,
)
    requires
        make_accounts.len() >= 9,
        make_accounts[3].key != make_accounts[5].key,
        is_make_plan(p1, make_accounts, ix, program_id, rent_lamports),
        run(l0, make_accounts, p1.actions@) == Some(l1),
        refund_accounts.len() == 8,
        refund_accounts[2].key != refund_accounts[4].key,
        refund_accounts[2].key == make_accounts[3].key,
        refund_accounts[3].key == make_accounts[4].key,
        refund_accounts[4].key == make_accounts[5].key,
        escrow_bytes(e) == l1.records[make_accounts[4].key],
        is_refund_plan(p2, refund_accounts, e),
        run(l1, refund_accounts, p2.actions@) == Some(l2),
    ensures
        l2.holdings.contains_key(make_accounts[3].key),
        l2.holdings[make_accounts[3].key] == l0.holdings[make_accounts[3].key],
        !l2.holdings.contains_key(make_accounts[5].key),
        !l2.records.contains_key(make_accounts[4].key),
{
    lemma_make_deposits(p1, make_accounts, ix, program_id, rent_lamports, l0, l1);
    lemma_escrow_bytes_injective(e, record_of(ix, make_accounts[0].key));
    lemma_refund_returns_deposit(p2, refund_accounts, e, l1, l2);
}

/// A create followed by a fulfil swaps the assets: the account at the
/// taker's A position gains the amount the maker deposited, the account at
/// the maker's B position (held by the maker, see `lemma_take_pays_maker`)
/// gains the same amount from the taker, and neither the vault nor the record is left.
pub proof fn lemma_make_then_take(
    p1: crate::instructions::Plan,
    make_accounts: Seq<AccountView>,
    ix: MakeEscrow,
    program_id: Pubkey,
    rent_lamports: u64,
    p2: crate::instructions::Plan,
    take_accounts: Seq<AccountView>,
    e: Escrow,
    l0: Ledger,
    l1: Ledger,
    l2: Ledger,
)
    requires
        make_accounts.len() >= 9,
        make_accounts[3].key != make_accounts[5].key,
        is_make_plan(p1, make_accounts, ix, program_id, rent_lamports),
        run(l0, make_accounts, p1.actions@) == Some(l1),
        take_accounts.len() == 12,
        take_holdings_distinct(take_accounts),
        take_accounts[7].key == make_accounts[4].key,
        take_accounts[8].key == make_accounts[5].key,
        escrow_bytes(e) == l1.records[make_accounts[4].key],
        is_take_plan(p2, take_accounts, e),
        run(l1, take_accounts, p2.actions@) == Some(l2),
    ensures
        e == record_of(ix, make_accounts[0].key),
        l2.holdings[take_accounts[4].key] == (if take_accounts[4].data@.len() == 0 {
            0
        } else {
            l1.holdings[take_accounts[4].key]
        }) + ix.recieve_amount,
        l2.holdings[take_accounts[6].key] == (if take_accounts[6].data@.len() == 0 {
            0
        } else {
            l1.holdings[take_accounts[6].key]
        }) + ix.recieve_amount,
        l2.holdings[take_accounts[5].key] == l1.holdings[take_accounts[5].key]
            - ix.recieve_amount,
        !l2.holdings.contains_key(make_accounts[5].key),
        !l2.records.contains_key(make_accounts[4].key),
{
    lemma_make_deposits(p1, make_accounts, ix, program_id, rent_lamports, l0, l1);
    lemma_escrow_bytes_injective(e, record_of(ix, make_accounts[0].key));
    lemma_take_swaps(p2, take_accounts, e, l1, l2);
}

/// Fulfilment pays the stored maker: an accepted fulfil of record `e` names
/// the stored maker, takes asset A from the record's own holding of it, and
/// pays asset B into a holding of asset B that the maker holds, or into one
/// that the plan opens for the maker.
pub proof fn lemma_take_pays_maker(
    p: crate::instructions::Plan,
    accounts: Seq<AccountView>,
    program_id: Pubkey,
    token_program: Pubkey,
    e: Escrow,
)
    requires
        accounts.len() == 12,
        escrow_bytes(e) == accounts[7].data@,
        take_refusal(accounts, program_id, token_program) is None,
        is_take_plan(p, accounts, e),
    ensures
        accounts[1].key == e.maker,
        accounts[2].key == e.mint_a,
        accounts[3].key == e.mint_b,
        is_holding(accounts[8], token_program, e.mint_a, accounts[7].key),
        accounts[6].data@.len() != 0 ==> is_holding(accounts[6], token_program, e.mint_b, e.maker),
        accounts[6].data@.len() == 0 ==> p.actions@[0] == (Action::InitializeAccount {
            account: 6,
            mint: 3,
            owner: 1,
            rent_sysvar: 9,
        }),
{
    crate::state::lemma_escrow_fields(e);
    crate::account::lemma_key_view(accounts[1].key, e.maker);
    crate::account::lemma_key_view(accounts[2].key, e.mint_a);
    crate::account::lemma_key_view(accounts[3].key, e.mint_b);
}

/// Creation is exclusive per (maker, seed): two accepted creates by the same
/// maker with the same seed, checked against the runtime's search for that
/// pair, sign with the same seed material, so both name the same escrow
/// address and the later one meets the record of the earlier.
pub proof fn lemma_make_one_address_per_seed(
    accounts1: Seq<AccountView>,
    data1: Seq<u8>,
    accounts2: Seq<AccountView>,
    data2: Seq<u8>,
    token_program: Pubkey,
    canonical_bump: Option<u8>,
    ix1: MakeEscrow,
    ix2: MakeEscrow,
)
    requires
        make_refusal(accounts1, data1, token_program, canonical_bump) is None,
        make_refusal(accounts2, data2, token_program, canonical_bump) is None,
        make_payload_matches(ix1, data1),
        make_payload_matches(ix2, data2),
        accounts1[0].key == accounts2[0].key,
        ix1.seed == ix2.seed,
    ensures
        seed_material(accounts1[0].key, ix1.seed, ix1.bump) == seed_material(
            accounts2[0].key,
            ix2.seed,
            ix2.bump,
        ),
{
}

} // verus!
