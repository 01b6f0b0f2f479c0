//! Mathematical model of the pool and the functional specification of every
//! operation.
//!
//! `PoolModel` is the view of an [`crate::pool::AutomatedMarketMaker`]: its
//! fee, ledgers, reserves, and share supply as mathematical values.  Each
//! executable operation has a spec function here that gives
//! its outcome, and — for the mutating operations — a second spec function
//! that gives the state after the call (the unchanged state whenever the
//! outcome is an error, so callers can rely on all-or-nothing updates).

use vstd::prelude::*;

use crate::errors::Error;
use crate::ledger::amount_of;
use crate::ledger::lemma_amount_le_total;
use crate::ledger::lemma_total_insert;
use crate::ledger::total_of;

verus! {

/// Granularity of the fee parameter: fees are parts per `PRECISION`, and the
/// first deposit into an empty pool mints `1000 * PRECISION` shares.
pub const PRECISION: u128 = 1_000;

/// Abstract state of the pool.
pub struct PoolModel {
    /// Fee charged on every swap, in parts per `PRECISION`; below `PRECISION`.
    pub trading_fee: u128,
    /// Free token1 held per account, not yet locked into the pool.
    pub token1_balance: Map<u128, u128>,
    /// Free token2 held per account, not yet locked into the pool.
    pub token2_balance: Map<u128, u128>,
    /// Token1 locked in the pool.
    pub pool_total_token1: u128,
    /// Token2 locked in the pool.
    pub pool_total_token2: u128,
    /// Total amount of shares issued for the pool.
    pub total_shares: u128,
    /// Share holding per account.
    pub shares: Map<u128, u128>,
}

/// The constant product of the two reserves; a swap must not let truncation
/// push it below what the reserves can answer for.
pub open spec fn spec_k(m: PoolModel) -> int {
    m.pool_total_token1 * m.pool_total_token2
}

impl PoolModel {
    /// Well-formedness: the fee is in range, the pool is either empty or
    /// holds both tokens, the issued share supply equals the sum of all
    /// per-account holdings, and the constant product fits the amount type
    /// so that pricing never overflows.
    pub open spec fn wf(self) -> bool {
        &&& self.trading_fee < PRECISION
        &&& (self.pool_total_token1 == 0 <==> self.total_shares == 0)
        &&& (self.pool_total_token2 == 0 <==> self.total_shares == 0)
        &&& self.token1_balance.dom().finite()
        &&& self.token2_balance.dom().finite()
        &&& self.shares.dom().finite()
        &&& self.total_shares == total_of(self.shares)
        &&& spec_k(self) <= u128::MAX
    }
}

/// The freshly constructed pool: empty ledgers, zero reserves and shares,
/// and the requested fee, silently clamped to zero when out of range.
pub open spec fn spec_new_pool(fees: u128) -> PoolModel {
    PoolModel {
        trading_fee: if fees >= PRECISION {
            0
        } else {
            fees
        },
        token1_balance: Map::empty(),
        token2_balance: Map::empty(),
        pool_total_token1: 0,
        pool_total_token2: 0,
        total_shares: 0,
        shares: Map::empty(),
    }
}

/// Outcome of the validity check run before a deposit or a withdrawal: the
/// quantity must be non-zero and covered by the caller's recorded amount.
pub open spec fn spec_check_valid_amount(
    ledger: Map<u128, u128>,
    caller: u128,
    quantity: u128,
) -> Result<(), Error> {
    if quantity == 0 {
        Err(Error::ZeroAmountErr)
    } else if quantity > amount_of(ledger, caller) {
        Err(Error::InsufficientAmountErr)
    } else {
        Ok(())
    }
}

/// Shares minted for a deposit against an active pool.  Both token amounts
/// are deliberately normalized against the token1 reserve; a deposit is
/// accepted only when the two quotients agree.
pub open spec fn spec_issued_shares(total: u128, amount: u128, reserve1: u128) -> int {
    (total * amount) / (reserve1 as int)
}

/// The shares a successful deposit mints: the fixed initial grant for the
/// first deposit, the token1-normalized quotient afterwards.
pub open spec fn spec_issued_for(m: PoolModel, amount1: u128) -> u128 {
    if m.total_shares == 0 {
        (1000 * PRECISION) as u128
    } else {
        spec_issued_shares(m.total_shares, amount1, m.pool_total_token1) as u128
    }
}

/// Outcome of `provide_liquidity`.  The checks run in this order: the token1
/// amount must be non-zero and covered; on the first deposit the token2
/// amount must also be non-zero (an empty pool must leave the empty state
/// with both reserves positive); against an active pool the two normalized
/// share quotients must agree and must not truncate to zero; finally the
/// token2 amount must be covered as well, so that no debit can underflow.
pub open spec fn spec_provide_liquidity(
    m: PoolModel,
    caller: u128,
    amount1: u128,
    amount2: u128,
) -> Result<u128, Error> {
    if amount1 == 0 {
        Err(Error::ZeroAmountErr)
    } else if amount1 > amount_of(m.token1_balance, caller) {
        Err(Error::InsufficientAmountErr)
    } else if m.total_shares == 0 && amount2 == 0 {
        Err(Error::ZeroAmountErr)
    } else if m.total_shares != 0 && spec_issued_shares(m.total_shares, amount1, m.pool_total_token1)
        != spec_issued_shares(m.total_shares, amount2, m.pool_total_token1) {
        Err(Error::NonEquivalentValueErr)
    } else if m.total_shares != 0 && spec_issued_shares(m.total_shares, amount1, m.pool_total_token1)
        == 0 {
        Err(Error::ThresholdNotReachedErr)
    } else if amount2 > amount_of(m.token2_balance, caller) {
        Err(Error::InsufficientAmountErr)
    } else {
        Ok(spec_issued_for(m, amount1))
    }
}

/// State after a successful deposit: both amounts move from the caller's
/// free balances into the reserves and the minted shares are credited.
pub open spec fn spec_apply_deposit(
    m: PoolModel,
    caller: u128,
    amount1: u128,
    amount2: u128,
    issued: u128,
) -> PoolModel {
    PoolModel {
        trading_fee: m.trading_fee,
        token1_balance: m.token1_balance.insert(
            caller,
            (amount_of(m.token1_balance, caller) - amount1) as u128,
        ),
        token2_balance: m.token2_balance.insert(
            caller,
            (amount_of(m.token2_balance, caller) - amount2) as u128,
        ),
        pool_total_token1: (m.pool_total_token1 + amount1) as u128,
        pool_total_token2: (m.pool_total_token2 + amount2) as u128,
        total_shares: (m.total_shares + issued) as u128,
        shares: m.shares.insert(caller, (amount_of(m.shares, caller) + issued) as u128),
    }
}

/// State after `provide_liquidity`: updated on success, untouched on error.
pub open spec fn spec_provide_liquidity_state(
    m: PoolModel,
    caller: u128,
    amount1: u128,
    amount2: u128,
) -> PoolModel {
    match spec_provide_liquidity(m, caller, amount1, amount2) {
        Ok(issued) => spec_apply_deposit(m, caller, amount1, amount2, issued),
        Err(_) => m,
    }
}

/// Token1 released for burning `quantity` shares: the share-proportional
/// slice of the token1 reserve, truncated.
pub open spec fn spec_withdraw_amount1(m: PoolModel, quantity: u128) -> int {
    (quantity * m.pool_total_token1) / (m.total_shares as int)
}

/// Token2 released for burning `quantity` shares.
pub open spec fn spec_withdraw_amount2(m: PoolModel, quantity: u128) -> int {
    (quantity * m.pool_total_token2) / (m.total_shares as int)
}

/// Outcome of `get_withdraw_estimation`: the pool must be active and the
/// burn must not exceed the issued share supply.
pub open spec fn spec_get_withdraw_estimation(m: PoolModel, quantity: u128) -> Result<
    (u128, u128),
    Error,
> {
    if spec_k(m) == 0 {
        Err(Error::ZeroLiquidityErr)
    } else if quantity > m.total_shares {
        Err(Error::InvalidShareErr)
    } else {
        Ok((spec_withdraw_amount1(m, quantity) as u128, spec_withdraw_amount2(m, quantity) as u128))
    }
}

/// Outcome of `withdraw`: the burn must be non-zero and covered by the
/// caller's share holding, then the estimation rules apply.
pub open spec fn spec_withdraw(m: PoolModel, caller: u128, quantity: u128) -> Result<
    (u128, u128),
    Error,
> {
    match spec_check_valid_amount(m.shares, caller, quantity) {
        Err(e) => Err(e),
        Ok(_) => spec_get_withdraw_estimation(m, quantity),
    }
}

/// State after a successful withdrawal: the burned shares leave the supply
/// and the released amounts move from the reserves to the caller's free
/// balances.
pub open spec fn spec_apply_withdraw(
    m: PoolModel,
    caller: u128,
    quantity: u128,
    released1: u128,
    released2: u128,
) -> PoolModel {
    PoolModel {
        trading_fee: m.trading_fee,
        token1_balance: m.token1_balance.insert(
            caller,
            (amount_of(m.token1_balance, caller) + released1) as u128,
        ),
        token2_balance: m.token2_balance.insert(
            caller,
            (amount_of(m.token2_balance, caller) + released2) as u128,
        ),
        pool_total_token1: (m.pool_total_token1 - released1) as u128,
        pool_total_token2: (m.pool_total_token2 - released2) as u128,
        total_shares: (m.total_shares - quantity) as u128,
        shares: m.shares.insert(caller, (amount_of(m.shares, caller) - quantity) as u128),
    }
}

/// State after `withdraw`: updated on success, untouched on error.
pub open spec fn spec_withdraw_state(m: PoolModel, caller: u128, quantity: u128) -> PoolModel {
    match spec_withdraw(m, caller, quantity) {
        Ok(released) => spec_apply_withdraw(m, caller, quantity, released.0, released.1),
        Err(_) => m,
    }
}

/// State after the faucet: both free balances of the caller grow by the
/// granted amounts; reserves and shares are untouched.
pub open spec fn spec_faucet(m: PoolModel, caller: u128, amount1: u128, amount2: u128) -> PoolModel {
    PoolModel {
        trading_fee: m.trading_fee,
        token1_balance: m.token1_balance.insert(
            caller,
            (amount_of(m.token1_balance, caller) + amount1) as u128,
        ),
        token2_balance: m.token2_balance.insert(
            caller,
            (amount_of(m.token2_balance, caller) + amount2) as u128,
        ),
        pool_total_token1: m.pool_total_token1,
        pool_total_token2: m.pool_total_token2,
        total_shares: m.total_shares,
        shares: m.shares,
    }
}

/// The swap input that remains after the fee is retained, truncated.
pub open spec fn spec_effective_amount(fee: u128, amount1: u128) -> int {
    ((PRECISION - fee) * amount1) / (PRECISION as int)
}

/// Token2 paid out for swapping in `amount1` of token1: the fee-reduced
/// input joins the token1 reserve and the token2 reserve falls to keep the
/// constant product.  Flooring the kept reserve `k / token1_after` can only
/// enlarge the payout, so truncation favours the trader and can shrink the
/// post-trade product.
pub open spec fn spec_token2_output(m: PoolModel, amount1: u128) -> int {
    let token1_after = m.pool_total_token1 + spec_effective_amount(m.trading_fee, amount1);
    m.pool_total_token2 - spec_k(m) / token1_after
}

/// Outcome of both token1-for-token2 swap estimators: requires an active
/// pool, and the degenerate trade whose computed output equals the entire
/// token2 reserve is floored to one unit below it, so an executed swap
/// always leaves that reserve positive.
pub open spec fn spec_estimate_swap_output(m: PoolModel, amount1: u128) -> Result<u128, Error> {
    if spec_k(m) == 0 {
        Err(Error::ZeroLiquidityErr)
    } else if spec_token2_output(m, amount1) == m.pool_total_token2 {
        Ok((m.pool_total_token2 - 1) as u128)
    } else {
        Ok(spec_token2_output(m, amount1) as u128)
    }
}

/// Token1 that must join the reserve so that the token2 reserve can fall by
/// `amount2` at constant product, before the fee gross-up.
pub open spec fn spec_raw_token1_input(m: PoolModel, amount2: u128) -> int {
    spec_k(m) / (m.pool_total_token2 - amount2) - m.pool_total_token1
}

/// Outcome of `swap_token1_for_given_token2`: requires an active pool, never
/// releases the entire token2 reserve, and grosses the required input up for
/// the fee.
pub open spec fn spec_swap_token1_for_given_token2(m: PoolModel, amount2: u128) -> Result<
    u128,
    Error,
> {
    if spec_k(m) == 0 {
        Err(Error::ZeroLiquidityErr)
    } else if amount2 >= m.pool_total_token2 {
        Err(Error::InsufficientLiquidityErr)
    } else {
        Ok(((spec_raw_token1_input(m, amount2) * (PRECISION as int)) / (PRECISION
            - m.trading_fee)) as u128)
    }
}

/// Outcome of `get_equivalent_token1_estimate`: the token1 amount matching
/// `amount2` at the pool's current deposit ratio, fee-free.
pub open spec fn spec_equivalent_token1(m: PoolModel, amount2: u128) -> Result<u128, Error> {
    if spec_k(m) == 0 {
        Err(Error::ZeroLiquidityErr)
    } else {
        Ok(((m.pool_total_token1 * amount2) / (m.pool_total_token2 as int)) as u128)
    }
}

/// Outcome of `get_equivalent_token2_estimate`.
pub open spec fn spec_equivalent_token2(m: PoolModel, amount1: u128) -> Result<u128, Error> {
    if spec_k(m) == 0 {
        Err(Error::ZeroLiquidityErr)
    } else {
        Ok(((m.pool_total_token2 * amount1) / (m.pool_total_token1 as int)) as u128)
    }
}

/// A freshly constructed pool is well-formed.
pub proof fn lemma_new_pool_wf(fees: u128)
    ensures
        spec_new_pool(fees).wf(),
{
    assert(Map::<u128, u128>::empty().dom() =~= Set::<u128>::empty());
}

/// A successful deposit keeps the pool well-formed, provided the grown
/// share supply and the grown constant product still fit the amount type.
/// The minted shares are positive, and crediting them to the caller cannot
/// overflow because no holding exceeds the share supply.
pub proof fn lemma_provide_liquidity_preserves_wf(
    m: PoolModel,
    caller: u128,
    amount1: u128,
    amount2: u128,
)
    requires
        m.wf(),
        spec_provide_liquidity(m, caller, amount1, amount2) is Ok,
        m.total_shares != 0 ==> m.total_shares * amount1 <= u128::MAX,
        m.total_shares + spec_issued_for(m, amount1) <= u128::MAX,
        (m.pool_total_token1 + amount1) * (m.pool_total_token2 + amount2) <= u128::MAX,
    ensures
        0 < spec_issued_for(m, amount1),
        amount_of(m.shares, caller) + spec_issued_for(m, amount1) <= u128::MAX,
        m.pool_total_token1 + amount1 <= u128::MAX,
        m.pool_total_token2 + amount2 <= u128::MAX,
        spec_provide_liquidity_state(m, caller, amount1, amount2).wf(),
{
    let issued = spec_issued_for(m, amount1);
    lemma_amount_le_total(m.shares, caller);
    if m.total_shares != 0 {
        vstd::arithmetic::div_mod::lemma_div_pos_is_pos(
            m.total_shares * amount1,
            m.pool_total_token1 as int,
        );
        vstd::arithmetic::div_mod::lemma_div_nonincreasing(
            m.total_shares * amount1,
            m.pool_total_token1 as int,
        );
    }
    assert(0 < issued);
    let updated = spec_apply_deposit(m, caller, amount1, amount2, issued);
    lemma_total_insert(m.shares, caller, (amount_of(m.shares, caller) + issued) as u128);
    assert(m.pool_total_token1 + amount1 <= (m.pool_total_token1 + amount1) * (m.pool_total_token2
        + amount2)) by (nonlinear_arith)
        requires
            0 <= m.pool_total_token1 + amount1,
            1 <= m.pool_total_token2 + amount2,
    ;
    assert(m.pool_total_token2 + amount2 <= (m.pool_total_token1 + amount1) * (m.pool_total_token2
        + amount2)) by (nonlinear_arith)
        requires
            1 <= m.pool_total_token1 + amount1,
            0 <= m.pool_total_token2 + amount2,
    ;
    assert(updated.total_shares == total_of(updated.shares));
    assert(updated.wf());
}

/// A successful withdrawal keeps the pool well-formed, provided the grown
/// free balances still fit the amount type.  The released amounts never
/// exceed the reserves, burning every share empties the pool exactly, and a
/// partial burn leaves both reserves positive.
pub proof fn lemma_withdraw_preserves_wf(m: PoolModel, caller: u128, quantity: u128)
    requires
        m.wf(),
        spec_withdraw(m, caller, quantity) is Ok,
        amount_of(m.token1_balance, caller) + spec_withdraw_amount1(m, quantity) <= u128::MAX,
        amount_of(m.token2_balance, caller) + spec_withdraw_amount2(m, quantity) <= u128::MAX,
    ensures
        quantity <= amount_of(m.shares, caller),
        amount_of(m.shares, caller) <= m.total_shares,
        0 <= spec_withdraw_amount1(m, quantity),
        spec_withdraw_amount1(m, quantity) <= m.pool_total_token1,
        0 <= spec_withdraw_amount2(m, quantity),
        spec_withdraw_amount2(m, quantity) <= m.pool_total_token2,
        quantity == m.total_shares ==> spec_withdraw_amount1(m, quantity) == m.pool_total_token1
            && spec_withdraw_amount2(m, quantity) == m.pool_total_token2,
        quantity < m.total_shares ==> spec_withdraw_amount1(m, quantity) < m.pool_total_token1
            && spec_withdraw_amount2(m, quantity) < m.pool_total_token2,
        spec_withdraw_state(m, caller, quantity).wf(),
{
    lemma_amount_le_total(m.shares, caller);
    crate::arith::lemma_proportional_slice(
        quantity as int,
        m.pool_total_token1 as int,
        m.total_shares as int,
    );
    crate::arith::lemma_proportional_slice(
        quantity as int,
        m.pool_total_token2 as int,
        m.total_shares as int,
    );
    let released1 = spec_withdraw_amount1(m, quantity) as u128;
    let released2 = spec_withdraw_amount2(m, quantity) as u128;
    let updated = spec_apply_withdraw(m, caller, quantity, released1, released2);
    lemma_total_insert(m.shares, caller, (amount_of(m.shares, caller) - quantity) as u128);
    assert(updated.total_shares == total_of(updated.shares));
    vstd::arithmetic::mul::lemma_mul_upper_bound(
        updated.pool_total_token1 as int,
        m.pool_total_token1 as int,
        updated.pool_total_token2 as int,
        m.pool_total_token2 as int,
    );
    assert(updated.wf());
}

/// The faucet keeps the pool well-formed, provided the grown free balances
/// still fit the amount type.
pub proof fn lemma_faucet_preserves_wf(m: PoolModel, caller: u128, amount1: u128, amount2: u128)
    requires
        m.wf(),
        amount_of(m.token1_balance, caller) + amount1 <= u128::MAX,
        amount_of(m.token2_balance, caller) + amount2 <= u128::MAX,
    ensures
        spec_faucet(m, caller, amount1, amount2).wf(),
{
}

} // verus!
