use automated_market_maker::AutomatedMarketMaker;
use automated_market_maker::Error;

#[test]
fn create_new_contract_test() {
    let mut _amm_contract = AutomatedMarketMaker::new(0);
    let _contract_addr: u128 = 255;
}

#[test]
fn should_activate_brrr_test() {
    let mut _amm_contract = AutomatedMarketMaker::new(0);
    let alice: u128 = 1;

    _amm_contract.faucet_brrr(alice, 10, 20);

    assert_eq!(_amm_contract.get_information_portfolio(alice), (10, 20, 0));
}

#[test]
fn should_provide_liquidity_test() {
    let mut _amm_contract = AutomatedMarketMaker::new(0);
    let alice: u128 = 1;

    _amm_contract.faucet_brrr(alice, 10, 20);

    let _provided_liquidity = _amm_contract.provide_liquidity(alice, 1, 2).unwrap();

    assert_eq!(_provided_liquidity, 1_000_000);
}

#[test]
fn fee_above_range_is_clamped_to_zero() {
    let pool = AutomatedMarketMaker::new(1000);
    assert_eq!(pool.get_pool_details(), (0, 0, 0, 0));
    let pool = AutomatedMarketMaker::new(1500);
    assert_eq!(pool.get_pool_details(), (0, 0, 0, 0));
    let pool = AutomatedMarketMaker::new(999);
    assert_eq!(pool.get_pool_details(), (0, 0, 0, 999));
}

#[test]
fn first_deposit_mints_initial_shares() {
    let mut pool = AutomatedMarketMaker::new(0);
    let alice: u128 = 1;
    pool.faucet_brrr(alice, 1000, 1000);

    assert_eq!(pool.provide_liquidity(alice, 100, 100), Ok(1_000_000));
    assert_eq!(pool.get_pool_details(), (100, 100, 1_000_000, 0));
    assert_eq!(pool.get_information_portfolio(alice), (900, 900, 1_000_000));
}

#[test]
fn second_deposit_at_pool_ratio_mints_proportionally() {
    let mut pool = AutomatedMarketMaker::new(0);
    let alice: u128 = 1;
    let bob: u128 = 2;
    pool.faucet_brrr(alice, 1000, 1000);
    pool.provide_liquidity(alice, 100, 100).unwrap();

    pool.faucet_brrr(bob, 1000, 1000);
    assert_eq!(pool.provide_liquidity(bob, 50, 50), Ok(500_000));
    assert_eq!(pool.get_pool_details(), (150, 150, 1_500_000, 0));
    assert_eq!(pool.get_information_portfolio(bob), (950, 950, 500_000));
    assert_eq!(pool.get_information_portfolio(alice), (900, 900, 1_000_000));
}

#[test]
fn repeated_deposit_accumulates_shares() {
    let mut pool = AutomatedMarketMaker::new(0);
    let alice: u128 = 1;
    pool.faucet_brrr(alice, 1000, 1000);
    pool.provide_liquidity(alice, 100, 100).unwrap();

    assert_eq!(pool.provide_liquidity(alice, 50, 50), Ok(500_000));
    assert_eq!(pool.get_pool_details(), (150, 150, 1_500_000, 0));
    assert_eq!(pool.get_information_portfolio(alice), (850, 850, 1_500_000));

    assert_eq!(pool.withdraw(alice, 2_000_000), Err(Error::InsufficientAmountErr));
}

#[test]
fn ratio_mismatch_is_rejected() {
    let mut pool = AutomatedMarketMaker::new(0);
    let alice: u128 = 1;
    pool.faucet_brrr(alice, 1000, 1000);
    pool.provide_liquidity(alice, 100, 100).unwrap();

    assert_eq!(pool.provide_liquidity(alice, 10, 20), Err(Error::NonEquivalentValueErr));
    assert_eq!(pool.get_pool_details(), (100, 100, 1_000_000, 0));
    assert_eq!(pool.get_information_portfolio(alice), (900, 900, 1_000_000));
}

#[test]
fn tiny_deposit_fails_threshold() {
    let mut pool = AutomatedMarketMaker::new(0);
    let alice: u128 = 1;
    pool.faucet_brrr(alice, 2_000_000_000, 2_000_000_000);
    pool.provide_liquidity(alice, 1_000_000_000, 1_000_000_000).unwrap();

    assert_eq!(pool.provide_liquidity(alice, 1, 1), Err(Error::ThresholdNotReachedErr));
}

#[test]
fn zero_amounts_are_rejected() {
    let mut pool = AutomatedMarketMaker::new(0);
    let alice: u128 = 1;
    pool.faucet_brrr(alice, 10, 10);

    assert_eq!(pool.provide_liquidity(alice, 0, 10), Err(Error::ZeroAmountErr));
    assert_eq!(pool.provide_liquidity(alice, 5, 0), Err(Error::ZeroAmountErr));
    assert_eq!(pool.withdraw(alice, 0), Err(Error::ZeroAmountErr));
}

#[test]
fn uncovered_amounts_are_rejected() {
    let mut pool = AutomatedMarketMaker::new(0);
    let alice: u128 = 1;
    pool.faucet_brrr(alice, 10, 10);

    assert_eq!(pool.provide_liquidity(alice, 20, 20), Err(Error::InsufficientAmountErr));
    assert_eq!(pool.provide_liquidity(alice, 5, 20), Err(Error::InsufficientAmountErr));
    assert_eq!(pool.withdraw(alice, 5), Err(Error::InsufficientAmountErr));
    assert_eq!(pool.get_information_portfolio(alice), (10, 10, 0));
}

#[test]
fn empty_pool_rejects_estimates() {
    let pool = AutomatedMarketMaker::new(0);

    assert_eq!(pool.get_equivalent_token1_estimate(5), Err(Error::ZeroLiquidityErr));
    assert_eq!(pool.get_equivalent_token2_estimate(5), Err(Error::ZeroLiquidityErr));
    assert_eq!(pool.estimate_swap_token1_for_given_token1(5), Err(Error::ZeroLiquidityErr));
    assert_eq!(pool.estimate_swap_token1_for_given_token2(5), Err(Error::ZeroLiquidityErr));
    assert_eq!(pool.swap_token1_for_given_token2(5), Err(Error::ZeroLiquidityErr));
    assert_eq!(pool.get_withdraw_estimation(5), Err(Error::ZeroLiquidityErr));
}

#[test]
fn equivalent_estimates_follow_reserve_ratio() {
    let mut pool = AutomatedMarketMaker::new(0);
    let alice: u128 = 1;
    pool.faucet_brrr(alice, 1000, 1000);
    pool.provide_liquidity(alice, 100, 200).unwrap();

    assert_eq!(pool.get_equivalent_token1_estimate(50), Ok(25));
    assert_eq!(pool.get_equivalent_token2_estimate(50), Ok(100));
}

#[test]
fn swap_estimate_concrete_scenario() {
    let mut pool = AutomatedMarketMaker::new(0);
    let alice: u128 = 1;
    let bob: u128 = 2;
    pool.faucet_brrr(alice, 1000, 1000);
    assert_eq!(pool.provide_liquidity(alice, 100, 100), Ok(1_000_000));
    assert_eq!(pool.get_pool_details(), (100, 100, 1_000_000, 0));
    pool.faucet_brrr(bob, 0, 0);

    assert_eq!(pool.estimate_swap_token1_for_given_token2(10), Ok(10));
    assert_eq!(pool.estimate_swap_token1_for_given_token1(10), Ok(10));
}

#[test]
fn swap_estimate_applies_fee() {
    let mut pool = AutomatedMarketMaker::new(3);
    let alice: u128 = 1;
    pool.faucet_brrr(alice, 1000, 1000);
    pool.provide_liquidity(alice, 100, 100).unwrap();

    assert_eq!(pool.estimate_swap_token1_for_given_token2(10), Ok(9));
    assert_eq!(pool.estimate_swap_token1_for_given_token1(10), Ok(9));
}

#[test]
fn swap_with_exact_division_preserves_product() {
    let mut pool = AutomatedMarketMaker::new(200);
    let alice: u128 = 1;
    pool.faucet_brrr(alice, 1000, 1000);
    pool.provide_liquidity(alice, 100, 100).unwrap();

    let out = pool.estimate_swap_token1_for_given_token2(32).unwrap();
    assert_eq!(out, 20);
    let effective_in: u128 = (1000 - 200) * 32 / 1000;
    assert_eq!(effective_in, 25);
    assert_eq!((100 + effective_in) * (100 - out), 100 * 100);
}

#[test]
fn degenerate_swap_estimates() {
    let mut pool = AutomatedMarketMaker::new(0);
    let alice: u128 = 1;
    pool.faucet_brrr(alice, 1000, 1000);
    pool.provide_liquidity(alice, 100, 100).unwrap();

    assert_eq!(pool.estimate_swap_token1_for_given_token1(10_000), Ok(99));
    assert_eq!(pool.estimate_swap_token1_for_given_token2(10_000), Ok(99));
}

#[test]
fn required_input_respects_reserve_boundary() {
    let mut pool = AutomatedMarketMaker::new(0);
    let alice: u128 = 1;
    pool.faucet_brrr(alice, 1000, 1000);
    pool.provide_liquidity(alice, 100, 100).unwrap();

    assert_eq!(pool.swap_token1_for_given_token2(100), Err(Error::InsufficientLiquidityErr));
    assert_eq!(pool.swap_token1_for_given_token2(120), Err(Error::InsufficientLiquidityErr));
    assert_eq!(pool.swap_token1_for_given_token2(99), Ok(9900));
    assert_eq!(pool.swap_token1_for_given_token2(50), Ok(100));
}

#[test]
fn withdraw_estimation_is_proportional() {
    let mut pool = AutomatedMarketMaker::new(0);
    let alice: u128 = 1;
    pool.faucet_brrr(alice, 1000, 1000);
    pool.provide_liquidity(alice, 100, 100).unwrap();

    assert_eq!(pool.get_withdraw_estimation(500_000), Ok((50, 50)));
    assert_eq!(pool.get_withdraw_estimation(1_000_001), Err(Error::InvalidShareErr));
}

#[test]
fn partial_withdraw_keeps_pool_active() {
    let mut pool = AutomatedMarketMaker::new(0);
    let alice: u128 = 1;
    pool.faucet_brrr(alice, 1000, 1000);
    pool.provide_liquidity(alice, 100, 100).unwrap();

    assert_eq!(pool.withdraw(alice, 250_000), Ok((25, 25)));
    assert_eq!(pool.get_pool_details(), (75, 75, 750_000, 0));
    assert_eq!(pool.get_information_portfolio(alice), (925, 925, 750_000));
}

#[test]
fn withdraw_all_shares_inverts_first_deposit() {
    let mut pool = AutomatedMarketMaker::new(0);
    let alice: u128 = 1;
    pool.faucet_brrr(alice, 1000, 2000);
    assert_eq!(pool.provide_liquidity(alice, 500, 600), Ok(1_000_000));

    assert_eq!(pool.withdraw(alice, 1_000_000), Ok((500, 600)));
    assert_eq!(pool.get_pool_details(), (0, 0, 0, 0));
    assert_eq!(pool.get_information_portfolio(alice), (1000, 2000, 0));
}

#[test]
fn faucet_accumulates_balances() {
    let mut pool = AutomatedMarketMaker::new(0);
    let alice: u128 = 1;
    pool.faucet_brrr(alice, 5, 7);
    pool.faucet_brrr(alice, 3, 4);

    assert_eq!(pool.get_information_portfolio(alice), (8, 11, 0));
}
