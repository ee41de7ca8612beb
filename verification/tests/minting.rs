use collateral_minting::AccountBalances;
use collateral_minting::Config;
use collateral_minting::Error;
use collateral_minting::Event;
use collateral_minting::Ledger;
use collateral_minting::Pallet;

fn engine(rate: u32) -> Pallet {
    Pallet::new(Config { eth_per_usd: rate })
}

fn balances(free: u32, reserved: u32, token: u32) -> AccountBalances {
    AccountBalances { free_collateral: free, reserved_collateral: reserved, token_balance: token }
}

#[test]
fn mint_success_scenario() {
    let mut ledger = Ledger::new();
    ledger.set_account(1, balances(1000, 0, 0));
    let mut events: Vec<Event> = Vec::new();

    let r = engine(1).mint_usd_tokens(&mut ledger, &mut events, 1, 100);

    assert_eq!(r, Ok(()));
    assert_eq!(ledger.balances(1), balances(900, 100, 100));
    assert_eq!(
        events,
        vec![
            Event::ETHUsedForMinting { account: 1, eth_amount: 100 },
            Event::USDTokenMinted { account: 1, amount: 100 },
        ]
    );
}

#[test]
fn mint_insufficient_scenario() {
    let mut ledger = Ledger::new();
    ledger.set_account(1, balances(50, 0, 0));
    let mut events: Vec<Event> = Vec::new();

    let r = engine(1).mint_usd_tokens(&mut ledger, &mut events, 1, 100);

    assert_eq!(r, Err(Error::InsufficientETHCollateral));
    assert_eq!(ledger.balances(1), balances(50, 0, 0));
    assert_eq!(events, Vec::new());
}

#[test]
fn mint_max_amount_at_unit_rate_does_not_overflow() {
    let mut ledger = Ledger::new();
    ledger.set_account(9, balances(u32::MAX, 0, 0));
    let mut events: Vec<Event> = Vec::new();

    let r = engine(1).mint_usd_tokens(&mut ledger, &mut events, 9, u32::MAX);

    assert_eq!(r, Ok(()));
    assert_eq!(ledger.balances(9), balances(0, u32::MAX, u32::MAX));
    assert_eq!(events.len(), 2);
}

#[test]
fn mint_max_amount_at_higher_rate_overflows() {
    let mut ledger = Ledger::new();
    ledger.set_account(9, balances(u32::MAX, 0, 0));
    let mut events: Vec<Event> = Vec::new();

    let r = engine(2).mint_usd_tokens(&mut ledger, &mut events, 9, u32::MAX);

    assert_eq!(r, Err(Error::InvalidMintingAmount));
    assert_eq!(ledger.balances(9), balances(u32::MAX, 0, 0));
    assert_eq!(events, Vec::new());
}

#[test]
fn mint_at_exact_free_balance_succeeds() {
    let mut ledger = Ledger::new();
    ledger.set_account(4, balances(300, 7, 2));
    let mut events: Vec<Event> = Vec::new();

    let r = engine(3).mint_usd_tokens(&mut ledger, &mut events, 4, 100);

    assert_eq!(r, Ok(()));
    assert_eq!(ledger.balances(4), balances(0, 307, 102));
    assert_eq!(
        events,
        vec![
            Event::ETHUsedForMinting { account: 4, eth_amount: 300 },
            Event::USDTokenMinted { account: 4, amount: 100 },
        ]
    );
}

#[test]
fn mint_one_short_of_requirement_fails() {
    let mut ledger = Ledger::new();
    ledger.set_account(4, balances(299, 7, 2));
    let mut events: Vec<Event> = Vec::new();

    let r = engine(3).mint_usd_tokens(&mut ledger, &mut events, 4, 100);

    assert_eq!(r, Err(Error::InsufficientETHCollateral));
    assert_eq!(ledger.balances(4), balances(299, 7, 2));
    assert_eq!(events, Vec::new());
}

#[test]
fn mint_zero_amount_is_a_zero_effect_success() {
    let mut ledger = Ledger::new();
    ledger.set_account(2, balances(10, 3, 4));
    let mut events: Vec<Event> = Vec::new();

    let r = engine(1).mint_usd_tokens(&mut ledger, &mut events, 2, 0);

    assert_eq!(r, Ok(()));
    assert_eq!(ledger.balances(2), balances(10, 3, 4));
    assert_eq!(
        events,
        vec![
            Event::ETHUsedForMinting { account: 2, eth_amount: 0 },
            Event::USDTokenMinted { account: 2, amount: 0 },
        ]
    );
}

#[test]
fn mint_for_unknown_account_fails_without_creating_it() {
    let mut ledger = Ledger::new();
    let mut events: Vec<Event> = Vec::new();

    let r = engine(1).mint_usd_tokens(&mut ledger, &mut events, 42, 5);

    assert_eq!(r, Err(Error::InsufficientETHCollateral));
    assert_eq!(ledger.balances(42), balances(0, 0, 0));
    assert_eq!(events, Vec::new());
}

#[test]
fn mint_leaves_other_accounts_alone() {
    let mut ledger = Ledger::new();
    ledger.set_account(1, balances(500, 0, 0));
    ledger.set_account(2, balances(800, 20, 30));
    let mut events: Vec<Event> = Vec::new();

    let r = engine(1).mint_usd_tokens(&mut ledger, &mut events, 1, 400);

    assert_eq!(r, Ok(()));
    assert_eq!(ledger.balances(1), balances(100, 400, 400));
    assert_eq!(ledger.balances(2), balances(800, 20, 30));
}

#[test]
fn required_collateral_scales_with_the_rate() {
    let mut ledger = Ledger::new();
    ledger.set_account(6, balances(1000, 0, 0));
    let mut events: Vec<Event> = Vec::new();

    let r = engine(7).mint_usd_tokens(&mut ledger, &mut events, 6, 10);

    assert_eq!(r, Ok(()));
    assert_eq!(ledger.balances(6), balances(930, 70, 10));
    assert_eq!(
        events,
        vec![
            Event::ETHUsedForMinting { account: 6, eth_amount: 70 },
            Event::USDTokenMinted { account: 6, amount: 10 },
        ]
    );
}

#[test]
fn free_balance_reads_the_free_part() {
    let mut ledger = Ledger::new();
    ledger.set_account(5, balances(123, 45, 67));

    assert_eq!(ledger.free_balance(5), 123);
    assert_eq!(ledger.free_balance(77), 0);
}

#[test]
fn reserve_moves_free_to_reserved() {
    let mut ledger = Ledger::new();
    ledger.set_account(3, balances(100, 10, 0));

    assert_eq!(ledger.reserve(3, 60), Ok(()));
    assert_eq!(ledger.balances(3), balances(40, 70, 0));
}

#[test]
fn reserve_revalidates_at_mutation_time() {
    let mut ledger = Ledger::new();
    ledger.set_account(3, balances(100, 10, 0));

    assert_eq!(ledger.reserve(3, 101), Err(Error::InsufficientETHCollateral));
    assert_eq!(ledger.balances(3), balances(100, 10, 0));
}

#[test]
fn deposit_creating_credits_and_creates() {
    let mut ledger = Ledger::new();
    ledger.set_account(8, balances(0, 0, 5));

    ledger.deposit_creating(8, 7);
    ledger.deposit_creating(11, 9);

    assert_eq!(ledger.balances(8), balances(0, 0, 12));
    assert_eq!(ledger.balances(11), balances(0, 0, 9));
}

#[test]
fn empty_account_balances_are_zero() {
    assert_eq!(AccountBalances::empty(), balances(0, 0, 0));
    assert_eq!(Ledger::new().balances(0), balances(0, 0, 0));
}
