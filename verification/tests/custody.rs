use solana_dex_program::{
    deposit, swap, Address, CustodyError, Deposit, DexAccount, DexError, Settlement, Swap,
    Transfer,
};

fn key(tag: u8) -> Address {
    Address::new([tag; 32])
}

const ASSET_A: u8 = 0xA1;
const ASSET_B: u8 = 0xB2;
const POOL: u8 = 0x50;
const TRADER_IN: u8 = 4;
const TRADER_OUT: u8 = 5;
const DEPOSITOR: u8 = 1;
const DEPOSITOR_A: u8 = 2;
const DEPOSITOR_B: u8 = 3;

fn record(token_a_reserve: u64, token_b_reserve: u64) -> DexAccount {
    DexAccount { token_a: key(ASSET_A), token_b: key(ASSET_B), token_a_reserve, token_b_reserve }
}

fn swap_ctx(dex_account: DexAccount) -> Swap {
    Swap {
        dex_account,
        dex_account_address: key(POOL),
        input_token_account: key(TRADER_IN),
        output_token_account: key(TRADER_OUT),
    }
}

fn deposit_ctx(dex_account: DexAccount) -> Deposit {
    Deposit {
        dex_account,
        dex_account_address: key(POOL),
        initializer: key(DEPOSITOR),
        token_a_account: key(DEPOSITOR_A),
        token_b_account: key(DEPOSITOR_B),
    }
}

/// A custody layer to test against: balances by asset and account, and for
/// each account the authority that controls it.
struct Ledger {
    balances: Vec<(Address, Address, u64)>,
    controllers: Vec<(Address, Address)>,
}

impl Ledger {
    fn balance(&self, asset: Address, account: Address) -> u64 {
        self.balances
            .iter()
            .find(|(a, k, _)| *a == asset && *k == account)
            .map(|(_, _, units)| *units)
            .unwrap_or(0)
    }

    fn set(&mut self, asset: Address, account: Address, units: u64) {
        for entry in self.balances.iter_mut() {
            if entry.0 == asset && entry.1 == account {
                entry.2 = units;
                return;
            }
        }
        self.balances.push((asset, account, units));
    }

    fn total(&self, asset: Address) -> u64 {
        self.balances.iter().filter(|(a, _, _)| *a == asset).map(|(_, _, units)| *units).sum()
    }

    fn controls(&self, authority: Address, account: Address) -> bool {
        self.controllers.iter().any(|(k, a)| *k == account && *a == authority)
    }

    fn transfer(&mut self, t: &Transfer) -> Result<(), CustodyError> {
        if !self.controls(t.authority, t.from) {
            return Err(CustodyError::Unauthorized);
        }
        let held = self.balance(t.asset, t.from);
        if held < t.amount {
            return Err(CustodyError::InsufficientFunds);
        }
        self.set(t.asset, t.from, held - t.amount);
        let there = self.balance(t.asset, t.to);
        self.set(t.asset, t.to, there + t.amount);
        Ok(())
    }

    /// Both transfers or neither, as the host's transaction would have it.
    fn carry_out(&mut self, settlement: &Settlement) -> Result<(), CustodyError> {
        let saved = self.balances.clone();
        let outcome =
            self.transfer(&settlement.first).and_then(|_| self.transfer(&settlement.second));
        if outcome.is_err() {
            self.balances = saved;
        }
        outcome
    }
}

/// A ledger on which the pool's account is controlled by the trader's
/// input account and by the depositor, as the requests assume.
fn ledger(pool_a: u64, pool_b: u64) -> Ledger {
    Ledger {
        balances: vec![
            (key(ASSET_A), key(POOL), pool_a),
            (key(ASSET_B), key(POOL), pool_b),
            (key(ASSET_A), key(TRADER_IN), 1_000_000),
            (key(ASSET_B), key(TRADER_IN), 1_000_000),
            (key(ASSET_A), key(DEPOSITOR_A), 5_000),
            (key(ASSET_B), key(DEPOSITOR_B), 5_000),
        ],
        controllers: vec![
            (key(TRADER_IN), key(TRADER_IN)),
            (key(POOL), key(TRADER_IN)),
            (key(DEPOSITOR_A), key(DEPOSITOR)),
            (key(DEPOSITOR_B), key(DEPOSITOR)),
        ],
    }
}

fn assert_reserves_match_custody(pool: &DexAccount, ledger: &Ledger) {
    assert_eq!(pool.token_a_reserve, ledger.balance(pool.token_a, key(POOL)));
    assert_eq!(pool.token_b_reserve, ledger.balance(pool.token_b, key(POOL)));
}

#[test]
fn custody_refusals_keep_their_names() {
    assert_eq!(DexError::from(CustodyError::InsufficientFunds), DexError::InsufficientFunds);
    assert_eq!(DexError::from(CustodyError::Unauthorized), DexError::Unauthorized);
}

#[test]
fn settle_records_the_reserves_once_custody_agrees() {
    let mut pool = record(1000, 1000);
    let settlement = swap(&swap_ctx(pool), 100, 0).unwrap();
    assert_eq!(pool.settle(&settlement, Ok(())), Ok(()));
    assert_eq!(pool, record(1100, 910));
}

#[test]
fn settle_leaves_the_pool_alone_when_custody_is_short() {
    let mut pool = record(1000, 1000);
    let settlement = swap(&swap_ctx(pool), 100, 0).unwrap();
    assert_eq!(
        pool.settle(&settlement, Err(CustodyError::InsufficientFunds)),
        Err(DexError::InsufficientFunds)
    );
    assert_eq!(pool, record(1000, 1000));
}

#[test]
fn settle_leaves_the_pool_alone_when_custody_finds_no_authority() {
    let mut pool = record(1000, 1000);
    let settlement = deposit(&deposit_ctx(pool), 10, 20).unwrap();
    assert_eq!(
        pool.settle(&settlement, Err(CustodyError::Unauthorized)),
        Err(DexError::Unauthorized)
    );
    assert_eq!(pool, record(1000, 1000));
}

#[test]
fn settle_never_touches_the_pair_of_assets() {
    let mut pool = record(1000, 1000);
    let settlement = deposit(&deposit_ctx(pool), 10, 20).unwrap();
    pool.settle(&settlement, Ok(())).unwrap();
    assert_eq!(pool.token_a, key(ASSET_A));
    assert_eq!(pool.token_b, key(ASSET_B));
    assert_eq!(pool, record(1010, 1020));
}

#[test]
fn failed_outbound_transfer_leaves_the_reserves_unchanged() {
    // The record says 1000 units of B, but the pool's vault for B holds
    // only 50: paying out 90 fails at the custody layer.
    let mut pool = record(1000, 1000);
    let mut custody = ledger(1000, 50);
    let balances_before = custody.balances.clone();

    let settlement = swap(&swap_ctx(pool), 100, 0).unwrap();
    assert_eq!(settlement.second.amount, 90);
    let outcome = custody.carry_out(&settlement);
    assert_eq!(outcome, Err(CustodyError::InsufficientFunds));

    assert_eq!(pool.settle(&settlement, outcome), Err(DexError::InsufficientFunds));
    assert_eq!(pool.token_a_reserve, 1000);
    assert_eq!(pool.token_b_reserve, 1000);
    assert_eq!(custody.balances, balances_before);
}

#[test]
fn failed_inbound_transfer_leaves_the_reserves_unchanged() {
    let mut pool = record(1000, 1000);
    let mut custody = ledger(1000, 1000);
    let settlement = swap(&swap_ctx(pool), 2_000_000, 0).unwrap();
    let outcome = custody.carry_out(&settlement);
    assert_eq!(outcome, Err(CustodyError::InsufficientFunds));
    assert_eq!(pool.settle(&settlement, outcome), Err(DexError::InsufficientFunds));
    assert_eq!(pool, record(1000, 1000));
    assert_reserves_match_custody(&pool, &custody);
}

#[test]
fn deposit_by_a_stranger_is_refused_by_custody_and_changes_nothing() {
    let mut pool = record(1000, 1000);
    let mut custody = ledger(1000, 1000);
    let mut ctx = deposit_ctx(pool);
    ctx.initializer = key(99);
    let settlement = deposit(&ctx, 10, 10).unwrap();
    let outcome = custody.carry_out(&settlement);
    assert_eq!(outcome, Err(CustodyError::Unauthorized));
    assert_eq!(pool.settle(&settlement, outcome), Err(DexError::Unauthorized));
    assert_eq!(pool, record(1000, 1000));
    assert_reserves_match_custody(&pool, &custody);
}

#[test]
fn deposit_beyond_the_depositors_balance_changes_nothing() {
    let mut pool = record(0, 0);
    let mut custody = ledger(0, 0);
    let settlement = deposit(&deposit_ctx(pool), 5_000, 5_001).unwrap();
    let outcome = custody.carry_out(&settlement);
    assert_eq!(outcome, Err(CustodyError::InsufficientFunds));
    assert_eq!(pool.settle(&settlement, outcome), Err(DexError::InsufficientFunds));
    assert_eq!(pool, record(0, 0));
    assert_reserves_match_custody(&pool, &custody);
}

#[test]
fn reserves_follow_custody_through_deposits_and_swaps() {
    let mut pool = record(0, 0);
    let mut custody = ledger(0, 0);
    assert_reserves_match_custody(&pool, &custody);

    let settlement = deposit(&deposit_ctx(pool), 1000, 1000).unwrap();
    let outcome = custody.carry_out(&settlement);
    assert_eq!(pool.settle(&settlement, outcome), Ok(()));
    assert_eq!(pool, record(1000, 1000));
    assert_reserves_match_custody(&pool, &custody);

    let script: [(u64, u8); 6] = [(100, 0), (90, 1), (1, 0), (0, 1), (5_000_000, 0), (250, 1)];
    for (input_amount, direction) in script {
        let before = pool;
        match swap(&swap_ctx(pool), input_amount, direction) {
            Ok(settlement) => {
                let outcome = custody.carry_out(&settlement);
                let settled = pool.settle(&settlement, outcome);
                assert_eq!(settled.is_ok(), outcome.is_ok());
                if outcome.is_err() {
                    assert_eq!(pool, before);
                }
            }
            Err(_) => assert_eq!(pool, before),
        }
        assert_reserves_match_custody(&pool, &custody);
    }
    // The script ends on what its accepted swaps add up to, and custody
    // has neither made nor lost a unit.
    assert_eq!(pool, record(803, 1250));
    assert_eq!(custody.total(key(ASSET_A)), 1_000_000 + 5_000);
    assert_eq!(custody.total(key(ASSET_B)), 1_000_000 + 5_000);
}
