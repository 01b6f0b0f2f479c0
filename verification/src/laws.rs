//! Laws relating the pool's operations to one another.
//!
//! Each proof function here states a property of the specification functions
//! of [`crate::model`] that the executable operations are contracted to;
//! together with the per-operation well-formedness guarantees they pin down
//! the pool's behaviour across sequences of calls.

use vstd::prelude::*;

use vstd::arithmetic::div_mod::lemma_div_by_self;
use vstd::arithmetic::div_mod::lemma_div_is_ordered;
use vstd::arithmetic::div_mod::lemma_div_multiples_vanish;
use vstd::arithmetic::div_mod::lemma_fundamental_div_mod;
use vstd::arithmetic::div_mod::lemma_multiply_divide_lt;
use vstd::arithmetic::div_mod::lemma_small_mod;
use vstd::arithmetic::mul::lemma_mul_strict_inequality;
use vstd::arithmetic::mul::lemma_mul_strictly_positive;

use crate::errors::Error;
use crate::ledger::amount_of;
use crate::ledger::lemma_amount_le_total;
use crate::model::PoolModel;
use crate::model::PRECISION;
use crate::model::spec_effective_amount;
use crate::model::spec_estimate_swap_output;
use crate::model::spec_issued_shares;
use crate::model::spec_k;
use crate::model::spec_provide_liquidity;
use crate::model::spec_provide_liquidity_state;
use crate::model::spec_swap_token1_for_given_token2;
use crate::model::spec_token2_output;
use crate::model::spec_withdraw;
use crate::model::spec_withdraw_state;

verus! {

/// The first deposit into an empty pool mints exactly the fixed initial
/// share grant, and the deposited amounts become the reserves verbatim.
pub proof fn lemma_bootstrap_deposit(m: PoolModel, caller: u128, amount1: u128, amount2: u128)
    requires
        m.wf(),
        m.total_shares == 0,
        0 < amount1,
        0 < amount2,
        amount1 <= amount_of(m.token1_balance, caller),
        amount2 <= amount_of(m.token2_balance, caller),
    ensures
        spec_provide_liquidity(m, caller, amount1, amount2) == Ok::<u128, Error>(
            (1000 * PRECISION) as u128,
        ),
        spec_provide_liquidity_state(m, caller, amount1, amount2).pool_total_token1 == amount1,
        spec_provide_liquidity_state(m, caller, amount1, amount2).pool_total_token2 == amount2,
        spec_provide_liquidity_state(m, caller, amount1, amount2).total_shares == (1000
            * PRECISION) as u128,
{
}

/// A deposit against an active pool whose two token1-normalized share
/// quotients disagree — the pool's truncation-aware reading of a ratio
/// mismatch — is rejected, whatever the caller's token2 balance.
pub proof fn lemma_ratio_mismatch_rejected(
    m: PoolModel,
    caller: u128,
    amount1: u128,
    amount2: u128,
)
    requires
        m.wf(),
        m.total_shares != 0,
        amount1 != 0,
        amount1 <= amount_of(m.token1_balance, caller),
        spec_issued_shares(m.total_shares, amount1, m.pool_total_token1) != spec_issued_shares(
            m.total_shares,
            amount2,
            m.pool_total_token1,
        ),
    ensures
        spec_provide_liquidity(m, caller, amount1, amount2) == Err::<u128, Error>(
            Error::NonEquivalentValueErr,
        ),
        spec_provide_liquidity_state(m, caller, amount1, amount2) == m,
{
}

/// A swap of token1 for token2 whose fee-reduced input is positive moves
/// both reserves strictly when executed at the estimated output: the token1
/// reserve grows, the token2 reserve shrinks yet stays positive.  On the
/// inputs where the constant product divides evenly it is preserved
/// exactly, so it never falls below its pre-trade value.
pub proof fn lemma_swap_moves_reserves(m: PoolModel, amount1: u128)
    requires
        m.wf(),
        m.total_shares != 0,
        m.trading_fee > 0,
        1 <= spec_effective_amount(m.trading_fee, amount1),
        spec_k(m) % (m.pool_total_token1 + spec_effective_amount(m.trading_fee, amount1)) == 0,
    ensures
        ({
            let eff = spec_effective_amount(m.trading_fee, amount1);
            let out = spec_token2_output(m, amount1);
            &&& 0 < out < m.pool_total_token2
            &&& spec_estimate_swap_output(m, amount1) == Ok::<u128, Error>(out as u128)
            &&& m.pool_total_token1 + eff > m.pool_total_token1
            &&& m.pool_total_token2 - out < m.pool_total_token2
            &&& (m.pool_total_token1 + eff) * (m.pool_total_token2 - out) == spec_k(m)
        }),
{
    let r1: int = m.pool_total_token1 as int;
    let r2: int = m.pool_total_token2 as int;
    let k: int = spec_k(m);
    let eff = spec_effective_amount(m.trading_fee, amount1);
    let grown1 = r1 + eff;
    lemma_mul_strictly_positive(r1, r2);
    if k < grown1 {
        lemma_small_mod(k as nat, grown1 as nat);
    }
    assert(k >= grown1);
    lemma_div_is_ordered(grown1, k, grown1);
    lemma_div_by_self(grown1);
    assert(k / grown1 >= 1);
    lemma_mul_strict_inequality(r1, grown1, r2);
    lemma_multiply_divide_lt(k, grown1, r2);
    assert(k / grown1 < r2);
    lemma_fundamental_div_mod(k, grown1);
    assert(grown1 * (r2 - spec_token2_output(m, amount1)) == k);
}

/// Withdrawing the freshly minted shares immediately after the first
/// deposit into an empty pool releases exactly the deposited amounts,
/// restores the caller's free balances, and returns the pool to the empty
/// state.
pub proof fn lemma_withdraw_inverts_first_deposit(
    m: PoolModel,
    caller: u128,
    amount1: u128,
    amount2: u128,
)
    requires
        m.wf(),
        m.total_shares == 0,
        0 < amount1,
        0 < amount2,
        amount1 <= amount_of(m.token1_balance, caller),
        amount2 <= amount_of(m.token2_balance, caller),
    ensures
        ({
            let granted = (1000 * PRECISION) as u128;
            let deposited = spec_provide_liquidity_state(m, caller, amount1, amount2);
            let emptied = spec_withdraw_state(deposited, caller, granted);
            &&& spec_provide_liquidity(m, caller, amount1, amount2) == Ok::<u128, Error>(granted)
            &&& spec_withdraw(deposited, caller, granted) == Ok::<(u128, u128), Error>(
                (amount1, amount2),
            )
            &&& emptied.total_shares == 0
            &&& emptied.pool_total_token1 == 0
            &&& emptied.pool_total_token2 == 0
            &&& amount_of(emptied.token1_balance, caller) == amount_of(m.token1_balance, caller)
            &&& amount_of(emptied.token2_balance, caller) == amount_of(m.token2_balance, caller)
        }),
{
    let granted = (1000 * PRECISION) as u128;
    let deposited = spec_provide_liquidity_state(m, caller, amount1, amount2);
    lemma_amount_le_total(m.shares, caller);
    lemma_mul_strictly_positive(amount1 as int, amount2 as int);
    assert(spec_k(deposited) != 0);
    lemma_div_multiples_vanish(amount1 as int, granted as int);
    lemma_div_multiples_vanish(amount2 as int, granted as int);
}

/// The pool never releases its entire token2 reserve: requesting exactly
/// the reserve fails, while requesting one unit less succeeds and leaves
/// one unit of token2 behind when executed.
pub proof fn lemma_output_bounded_by_reserve(m: PoolModel)
    requires
        m.wf(),
        m.total_shares != 0,
    ensures
        spec_swap_token1_for_given_token2(m, m.pool_total_token2) == Err::<u128, Error>(
            Error::InsufficientLiquidityErr,
        ),
        spec_swap_token1_for_given_token2(m, (m.pool_total_token2 - 1) as u128) is Ok,
        m.pool_total_token2 - ((m.pool_total_token2 - 1) as u128) == 1,
{
    lemma_mul_strictly_positive(m.pool_total_token1 as int, m.pool_total_token2 as int);
    assert(spec_k(m) != 0);
}

} // verus!
