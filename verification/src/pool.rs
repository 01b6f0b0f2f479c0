//! The executable pool: a constant-product automated market maker over two
//! token types.
//!
//! Accounts are plain `u128` identifiers supplied explicitly by the caller
//! of every operation; amounts are `u128`.  Each method's contract equates
//! its result and its state change with the corresponding spec function of
//! [`crate::model`], and every mutating method keeps the pool well-formed.

use std::collections::BTreeMap;

use vstd::prelude::*;

use crate::arith::lemma_product_quotient_grows;
use crate::arith::lemma_product_quotient_shrinks;
use crate::errors::Error;
use crate::ledger::amount_of;
use crate::ledger::lemma_amount_le_total;
use crate::model::PoolModel;
use crate::model::PRECISION;
use crate::model::lemma_faucet_preserves_wf;
use crate::model::lemma_new_pool_wf;
use crate::model::lemma_provide_liquidity_preserves_wf;
use crate::model::lemma_withdraw_preserves_wf;
use crate::model::spec_check_valid_amount;
use crate::model::spec_effective_amount;
use crate::model::spec_equivalent_token1;
use crate::model::spec_equivalent_token2;
use crate::model::spec_estimate_swap_output;
use crate::model::spec_faucet;
use crate::model::spec_get_withdraw_estimation;
use crate::model::spec_issued_for;
use crate::model::spec_k;
use crate::model::spec_new_pool;
use crate::model::spec_provide_liquidity;
use crate::model::spec_provide_liquidity_state;
use crate::model::spec_raw_token1_input;
use crate::model::spec_swap_token1_for_given_token2;
use crate::model::spec_withdraw;
use crate::model::spec_withdraw_amount1;
use crate::model::spec_withdraw_amount2;
use crate::model::spec_withdraw_state;

verus! {

/// The pool's storage: fee, per-account free balances, reserves, and the
/// share ledger.
pub struct AutomatedMarketMaker {
    trading_fee: u128,
    token1_balance: BTreeMap<u128, u128>,
    token2_balance: BTreeMap<u128, u128>,
    pool_total_token1: u128,
    pool_total_token2: u128,
    total_shares: u128,
    shares: BTreeMap<u128, u128>,
}

impl View for AutomatedMarketMaker {
    type V = PoolModel;

    closed spec fn view(&self) -> PoolModel {
        PoolModel {
            trading_fee: self.trading_fee,
            token1_balance: self.token1_balance@,
            token2_balance: self.token2_balance@,
            pool_total_token1: self.pool_total_token1,
            pool_total_token2: self.pool_total_token2,
            total_shares: self.total_shares,
            shares: self.shares@,
        }
    }
}

/// The amount a ledger stores for an account, zero when absent.
fn stored_amount(ledger: &BTreeMap<u128, u128>, account: u128) -> (amount: u128)
    ensures
        amount == amount_of(ledger@, account),
{
    match ledger.get(&account) {
        Some(value) => *value,
        None => 0,
    }
}

impl AutomatedMarketMaker {
    /// Creates an empty pool charging `fees` parts per `PRECISION` on every
    /// swap; a fee outside `[0, PRECISION)` is silently treated as zero.
    pub fn new(fees: u128) -> (pool: Self)
        ensures
            pool@ == spec_new_pool(fees),
            pool@.wf(),
    {
        proof {
            lemma_new_pool_wf(fees);
        }
        AutomatedMarketMaker {
            trading_fee: if fees >= PRECISION {
                0
            } else {
                fees
            },
            token1_balance: BTreeMap::new(),
            token2_balance: BTreeMap::new(),
            pool_total_token1: 0,
            pool_total_token2: 0,
            total_shares: 0,
            shares: BTreeMap::new(),
        }
    }

    /// Ensures that `quantity` is non-zero and that the caller's amount
    /// recorded in `ledger` covers it.
    fn check_valid_amount(ledger: &BTreeMap<u128, u128>, caller: u128, quantity: u128) -> (r:
        Result<(), Error>)
        ensures
            r == spec_check_valid_amount(ledger@, caller, quantity),
    {
        let held = stored_amount(ledger, caller);
        if quantity == 0 {
            Err(Error::ZeroAmountErr)
        } else if quantity > held {
            Err(Error::InsufficientAmountErr)
        } else {
            Ok(())
        }
    }

    /// The liquidity constant: the product of the two reserves.
    fn get_k(&self) -> (k: u128)
        requires
            spec_k(self@) <= u128::MAX,
        ensures
            k == spec_k(self@),
    {
        self.pool_total_token1 * self.pool_total_token2
    }

    /// Restricts swapping and withdrawing until liquidity has been added.
    fn restrict_liquidity_in_pool(&self) -> (r: Result<(), Error>)
        requires
            spec_k(self@) <= u128::MAX,
        ensures
            r == (if spec_k(self@) == 0 {
                Err::<(), Error>(Error::ZeroLiquidityErr)
            } else {
                Ok::<(), Error>(())
            }),
    {
        if self.get_k() == 0 {
            Err(Error::ZeroLiquidityErr)
        } else {
            Ok(())
        }
    }

    /// Sends free tokens of both kinds to the given account out of thin
    /// air; the credit source used to bootstrap every scenario.
    pub fn faucet_brrr(&mut self, caller: u128, amount_token1: u128, amount_token2: u128)
        requires
            old(self)@.wf(),
            amount_of(old(self)@.token1_balance, caller) + amount_token1 <= u128::MAX,
            amount_of(old(self)@.token2_balance, caller) + amount_token2 <= u128::MAX,
        ensures
            final(self)@ == spec_faucet(old(self)@, caller, amount_token1, amount_token2),
            final(self)@.wf(),
    {
        proof {
            lemma_faucet_preserves_wf(old(self)@, caller, amount_token1, amount_token2);
        }
        let token1 = stored_amount(&self.token1_balance, caller);
        let token2 = stored_amount(&self.token2_balance, caller);
        self.token1_balance.insert(caller, token1 + amount_token1);
        self.token2_balance.insert(caller, token2 + amount_token2);
    }

    /// Locks tokens of both kinds into the pool and mints shares for the
    /// caller.  The token1 amount must be non-zero and covered by the
    /// caller's free balance; on the first deposit the token2 amount must
    /// also be non-zero and the deposit becomes the initial reserves
    /// verbatim; against an active pool both amounts must yield the same
    /// token1-normalized share quotient, which must not truncate to zero.
    /// The token2 balance is checked before any debit as well, so a
    /// shortfall fails the call instead of underflowing.  On any error the
    /// pool is left untouched.
    pub fn provide_liquidity(&mut self, caller: u128, amount_token1: u128, amount_token2: u128) -> (
        r: Result<u128, Error>)
        requires
            old(self)@.wf(),
            ({
                let m = old(self)@;
                m.total_shares != 0 && amount_token1 != 0 && amount_token1 <= amount_of(
                    m.token1_balance,
                    caller,
                ) ==> m.total_shares * amount_token1 <= u128::MAX && m.total_shares * amount_token2
                    <= u128::MAX
            }),
            ({
                let m = old(self)@;
                spec_provide_liquidity(m, caller, amount_token1, amount_token2) is Ok ==> {
                    &&& m.total_shares + spec_issued_for(m, amount_token1) <= u128::MAX
                    &&& (m.pool_total_token1 + amount_token1) * (m.pool_total_token2
                        + amount_token2) <= u128::MAX
                }
            }),
        ensures
            r == spec_provide_liquidity(old(self)@, caller, amount_token1, amount_token2),
            final(self)@ == spec_provide_liquidity_state(
                old(self)@,
                caller,
                amount_token1,
                amount_token2,
            ),
            final(self)@.wf(),
    {
        match Self::check_valid_amount(&self.token1_balance, caller, amount_token1) {
            Err(e) => {
                return Err(e);
            },
            Ok(_) => {},
        }
        let issued_shares: u128;
        if self.total_shares == 0 {
            if amount_token2 == 0 {
                return Err(Error::ZeroAmountErr);
            }
            issued_shares = 1000 * PRECISION;
        } else {
            let share_1 = self.total_shares * amount_token1 / self.pool_total_token1;
            let share_2 = self.total_shares * amount_token2 / self.pool_total_token1;
            if share_1 != share_2 {
                return Err(Error::NonEquivalentValueErr);
            }
            if share_1 == 0 {
                return Err(Error::ThresholdNotReachedErr);
            }
            issued_shares = share_1;
        }
        let token_1 = stored_amount(&self.token1_balance, caller);
        let token_2 = stored_amount(&self.token2_balance, caller);
        if amount_token2 > token_2 {
            return Err(Error::InsufficientAmountErr);
        }
        proof {
            lemma_provide_liquidity_preserves_wf(old(self)@, caller, amount_token1, amount_token2);
        }
        self.token1_balance.insert(caller, token_1 - amount_token1);
        self.token2_balance.insert(caller, token_2 - amount_token2);
        self.pool_total_token1 = self.pool_total_token1 + amount_token1;
        self.pool_total_token2 = self.pool_total_token2 + amount_token2;
        self.total_shares = self.total_shares + issued_shares;
        let held_shares = stored_amount(&self.shares, caller);
        self.shares.insert(caller, held_shares + issued_shares);
        Ok(issued_shares)
    }

    /// Estimates the token amounts released by burning `share` shares: the
    /// share-proportional slice of each reserve, truncated.  The pool must
    /// be active and the burn must not exceed the issued share supply.
    pub fn get_withdraw_estimation(&self, share: u128) -> (r: Result<(u128, u128), Error>)
        requires
            self@.wf(),
            self@.total_shares != 0 && share <= self@.total_shares ==> share
                * self@.pool_total_token1 <= u128::MAX && share * self@.pool_total_token2
                <= u128::MAX,
        ensures
            r == spec_get_withdraw_estimation(self@, share),
    {
        match self.restrict_liquidity_in_pool() {
            Err(e) => {
                return Err(e);
            },
            Ok(_) => {},
        }
        if share > self.total_shares {
            return Err(Error::InvalidShareErr);
        }
        let amount_token1 = share * self.pool_total_token1 / self.total_shares;
        let amount_token2 = share * self.pool_total_token2 / self.total_shares;
        Ok((amount_token1, amount_token2))
    }

    /// Burns `share` shares of the caller and releases the estimated token
    /// amounts from the reserves into the caller's free balances.  The burn
    /// must be non-zero and covered by the caller's share holding.  Burning
    /// every outstanding share returns the pool to the empty state; on any
    /// error the pool is left untouched.
    pub fn withdraw(&mut self, caller: u128, share: u128) -> (r: Result<(u128, u128), Error>)
        requires
            old(self)@.wf(),
            ({
                let m = old(self)@;
                m.total_shares != 0 && share != 0 && share <= amount_of(m.shares, caller) ==> share
                    * m.pool_total_token1 <= u128::MAX && share * m.pool_total_token2 <= u128::MAX
            }),
            ({
                let m = old(self)@;
                spec_withdraw(m, caller, share) is Ok ==> {
                    &&& amount_of(m.token1_balance, caller) + spec_withdraw_amount1(m, share)
                        <= u128::MAX
                    &&& amount_of(m.token2_balance, caller) + spec_withdraw_amount2(m, share)
                        <= u128::MAX
                }
            }),
        ensures
            r == spec_withdraw(old(self)@, caller, share),
            final(self)@ == spec_withdraw_state(old(self)@, caller, share),
            final(self)@.wf(),
    {
        match Self::check_valid_amount(&self.shares, caller, share) {
            Err(e) => {
                return Err(e);
            },
            Ok(_) => {},
        }
        proof {
            lemma_amount_le_total(old(self)@.shares, caller);
        }
        let estimation = self.get_withdraw_estimation(share);
        let (amount_token1, amount_token2) = match estimation {
            Err(e) => {
                return Err(e);
            },
            Ok(released) => released,
        };
        proof {
            lemma_withdraw_preserves_wf(old(self)@, caller, share);
        }
        let held_shares = stored_amount(&self.shares, caller);
        self.shares.insert(caller, held_shares - share);
        self.total_shares = self.total_shares - share;
        self.pool_total_token1 = self.pool_total_token1 - amount_token1;
        self.pool_total_token2 = self.pool_total_token2 - amount_token2;
        let token_1 = stored_amount(&self.token1_balance, caller);
        let token_2 = stored_amount(&self.token2_balance, caller);
        self.token1_balance.insert(caller, token_1 + amount_token1);
        self.token2_balance.insert(caller, token_2 + amount_token2);
        Ok((amount_token1, amount_token2))
    }

    /// Reports the caller's free token balances and share holding; unknown
    /// accounts hold zero.
    pub fn get_information_portfolio(&self, caller: u128) -> (portfolio: (u128, u128, u128))
        ensures
            portfolio == (
                amount_of(self@.token1_balance, caller),
                amount_of(self@.token2_balance, caller),
                amount_of(self@.shares, caller),
            ),
    {
        let token_1 = stored_amount(&self.token1_balance, caller);
        let token_2 = stored_amount(&self.token2_balance, caller);
        let user_shares = stored_amount(&self.shares, caller);
        (token_1, token_2, user_shares)
    }

    /// Returns the amount of token1 that matches `amount_token2` at the
    /// pool's current deposit ratio; no fee applies to deposits.
    pub fn get_equivalent_token1_estimate(&self, amount_token2: u128) -> (r: Result<u128, Error>)
        requires
            self@.wf(),
            self@.total_shares != 0 ==> self@.pool_total_token1 * amount_token2 <= u128::MAX,
        ensures
            r == spec_equivalent_token1(self@, amount_token2),
    {
        match self.restrict_liquidity_in_pool() {
            Err(e) => Err(e),
            Ok(_) => Ok(self.pool_total_token1 * amount_token2 / self.pool_total_token2),
        }
    }

    /// Returns the amount of token2 that matches `amount_token1` at the
    /// pool's current deposit ratio; no fee applies to deposits.
    pub fn get_equivalent_token2_estimate(&self, amount_token1: u128) -> (r: Result<u128, Error>)
        requires
            self@.wf(),
            self@.total_shares != 0 ==> self@.pool_total_token2 * amount_token1 <= u128::MAX,
        ensures
            r == spec_equivalent_token2(self@, amount_token1),
    {
        match self.restrict_liquidity_in_pool() {
            Err(e) => Err(e),
            Ok(_) => Ok(self.pool_total_token2 * amount_token1 / self.pool_total_token1),
        }
    }

    /// Returns the token2 paid out for swapping in `amount_token1`, at
    /// constant product after the fee; the degenerate trade whose computed
    /// output would drain the token2 reserve is floored to one unit below
    /// it.
    pub fn estimate_swap_token1_for_given_token1(&self, amount_token1: u128) -> (r: Result<
        u128,
        Error,
    >)
        requires
            self@.wf(),
            self@.total_shares != 0 ==> (PRECISION - self@.trading_fee) * amount_token1
                <= u128::MAX,
            self@.total_shares != 0 ==> self@.pool_total_token1 + spec_effective_amount(
                self@.trading_fee,
                amount_token1,
            ) <= u128::MAX,
        ensures
            r == spec_estimate_swap_output(self@, amount_token1),
    {
        match self.restrict_liquidity_in_pool() {
            Err(e) => {
                return Err(e);
            },
            Ok(_) => {},
        }
        let effective_in = (PRECISION - self.trading_fee) * amount_token1 / PRECISION;
        let token_1_after_trade = self.pool_total_token1 + effective_in;
        let token_2_after_trade = self.get_k() / token_1_after_trade;
        proof {
            lemma_product_quotient_shrinks(
                self@.pool_total_token1 as int,
                self@.pool_total_token2 as int,
                token_1_after_trade as int,
            );
        }
        let amount_token_2 = self.pool_total_token2 - token_2_after_trade;
        if amount_token_2 == self.pool_total_token2 {
            return Ok(self.pool_total_token2 - 1);
        }
        Ok(amount_token_2)
    }

    /// Returns the token2 paid out for swapping in `amount_token1`: the
    /// same estimate as the function above, with the same defensive floor,
    /// so an executed swap always leaves the token2 reserve positive.
    pub fn estimate_swap_token1_for_given_token2(&self, amount_token1: u128) -> (r: Result<
        u128,
        Error,
    >)
        requires
            self@.wf(),
            self@.total_shares != 0 ==> (PRECISION - self@.trading_fee) * amount_token1
                <= u128::MAX,
            self@.total_shares != 0 ==> self@.pool_total_token1 + spec_effective_amount(
                self@.trading_fee,
                amount_token1,
            ) <= u128::MAX,
        ensures
            r == spec_estimate_swap_output(self@, amount_token1),
    {
        match self.restrict_liquidity_in_pool() {
            Err(e) => {
                return Err(e);
            },
            Ok(_) => {},
        }
        let effective_in = (PRECISION - self.trading_fee) * amount_token1 / PRECISION;
        let token1_after = self.pool_total_token1 + effective_in;
        let token2_after = self.get_k() / token1_after;
        proof {
            lemma_product_quotient_shrinks(
                self@.pool_total_token1 as int,
                self@.pool_total_token2 as int,
                token1_after as int,
            );
        }
        let amount_token2 = self.pool_total_token2 - token2_after;
        if amount_token2 == self.pool_total_token2 {
            return Ok(self.pool_total_token2 - 1);
        }
        Ok(amount_token2)
    }

    /// Returns the token1 the caller must swap in to receive
    /// `amount_token2`, grossed up for the fee; the pool never releases its
    /// entire token2 reserve.
    pub fn swap_token1_for_given_token2(&self, amount_token2: u128) -> (r: Result<u128, Error>)
        requires
            self@.wf(),
            self@.total_shares != 0 && amount_token2 < self@.pool_total_token2
                ==> spec_raw_token1_input(self@, amount_token2) * PRECISION <= u128::MAX,
        ensures
            r == spec_swap_token1_for_given_token2(self@, amount_token2),
    {
        match self.restrict_liquidity_in_pool() {
            Err(e) => {
                return Err(e);
            },
            Ok(_) => {},
        }
        if amount_token2 >= self.pool_total_token2 {
            return Err(Error::InsufficientLiquidityErr);
        }
        let token2_after = self.pool_total_token2 - amount_token2;
        let token1_after = self.get_k() / token2_after;
        proof {
            lemma_product_quotient_grows(
                self@.pool_total_token1 as int,
                self@.pool_total_token2 as int,
                token2_after as int,
            );
        }
        let amount_token1 = (token1_after - self.pool_total_token1) * PRECISION / (PRECISION
            - self.trading_fee);
        Ok(amount_token1)
    }

    /// Reports the reserves, the issued share supply, and the fee.
    pub fn get_pool_details(&self) -> (details: (u128, u128, u128, u128))
        ensures
            details == (
                self@.pool_total_token1,
                self@.pool_total_token2,
                self@.total_shares,
                self@.trading_fee,
            ),
    {
        (self.pool_total_token1, self.pool_total_token2, self.total_shares, self.trading_fee)
    }
}

} // verus!
