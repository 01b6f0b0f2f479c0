//! Spec-level view of the per-account ledgers.
//!
//! Each ledger is a finite map from account identifiers to amounts.  An
//! absent account holds zero.  `total_of` sums all recorded amounts; it is
//! the yardstick for the pool invariant that the issued share supply equals
//! the sum of all per-account share holdings.

use vstd::prelude::*;

verus! {

/// The amount a ledger records for an account; absent accounts hold zero.
pub open spec fn amount_of(ledger: Map<u128, u128>, account: u128) -> u128 {
    if ledger.dom().contains(account) {
        ledger[account]
    } else {
        0
    }
}

/// The sum of all amounts a finite ledger records.
pub open spec fn total_of(ledger: Map<u128, u128>) -> int
    decreases ledger.dom().len(),
{
    if ledger.dom().finite() && ledger.dom().len() > 0 {
        let account = ledger.dom().choose();
        ledger[account] + total_of(ledger.remove(account))
    } else {
        0
    }
}

/// Removing an account subtracts exactly its recorded amount from the total.
pub proof fn lemma_total_remove(ledger: Map<u128, u128>, account: u128)
    requires
        ledger.dom().finite(),
        ledger.dom().contains(account),
    ensures
        total_of(ledger) == ledger[account] + total_of(ledger.remove(account)),
    decreases ledger.dom().len(),
{
    let picked = ledger.dom().choose();
    if picked == account {
        // The definition already unfolds with this account.
    } else {
        let without_picked = ledger.remove(picked);
        lemma_total_remove(without_picked, account);
        let without_account = ledger.remove(account);
        lemma_total_remove(without_account, picked);
        assert(without_picked.remove(account) =~= without_account.remove(picked));
        assert(total_of(ledger) == ledger[picked] + total_of(without_picked));
        assert(without_account.dom().len() > 0) by {
            assert(without_account.dom().contains(picked));
        }
        assert(total_of(without_account) == ledger[picked] + total_of(
            without_account.remove(picked),
        ));
    }
}

/// A finite ledger of unsigned amounts never sums to a negative total.
pub proof fn lemma_total_nonneg(ledger: Map<u128, u128>)
    requires
        ledger.dom().finite(),
    ensures
        total_of(ledger) >= 0,
    decreases ledger.dom().len(),
{
    if ledger.dom().len() > 0 {
        let picked = ledger.dom().choose();
        lemma_total_nonneg(ledger.remove(picked));
    }
}

/// No single account holds more than the whole ledger's total.
pub proof fn lemma_amount_le_total(ledger: Map<u128, u128>, account: u128)
    requires
        ledger.dom().finite(),
    ensures
        amount_of(ledger, account) <= total_of(ledger),
{
    if ledger.dom().contains(account) {
        lemma_total_remove(ledger, account);
        lemma_total_nonneg(ledger.remove(account));
    } else {
        lemma_total_nonneg(ledger);
    }
}

/// Overwriting one account's amount shifts the total by the difference
/// between the new and the previously recorded amount.
pub proof fn lemma_total_insert(ledger: Map<u128, u128>, account: u128, updated: u128)
    requires
        ledger.dom().finite(),
    ensures
        total_of(ledger.insert(account, updated)) == total_of(ledger) - amount_of(
            ledger,
            account,
        ) + updated,
{
    let grown = ledger.insert(account, updated);
    lemma_total_remove(grown, account);
    if ledger.dom().contains(account) {
        lemma_total_remove(ledger, account);
        assert(grown.remove(account) =~= ledger.remove(account));
    } else {
        assert(grown.remove(account) =~= ledger);
    }
}

} // verus!
