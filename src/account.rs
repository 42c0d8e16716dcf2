//! The settlement paths that credit an account's fee ledger. Each computes a
//! payment magnitude and hands it to `accumulate`, applying any capital
//! movement in the same step, so that the two never diverge.
use vstd::prelude::*;

use crate::ledger::{accumulate, accumulated, FeeCredits, Payment, SIGNED_MAX};

verus! {

/// The part of a margin account that fee settlement touches.
#[derive(Clone, Copy, Debug, PartialEq, Eq, Structural)]
pub struct Account {
    /// Posted capital, from which fee debt can be repaid.
    pub capital: u128,
    /// The account's fee-credit balance.
    pub fee_credits: FeeCredits,
}

/// Why a settlement path left its account unchanged.
#[derive(Clone, Copy, Debug, PartialEq, Eq, Structural)]
pub enum SettleError {
    /// No account record stands at the requested position.
    MissingAccount,
    /// The capital part of a deposit would not fit in the account's capital.
    CapitalOverflow,
}

/// The fee debt that one payment can clear: the magnitude of a negative
/// balance, capped at `SIGNED_MAX` (the largest payment the ledger credits
/// exactly), and 0 for a balance that is not negative.
pub open spec fn fee_debt(fee_credits: int) -> int {
    if fee_credits < -SIGNED_MAX {
        SIGNED_MAX as int
    } else if fee_credits < 0 {
        -fee_credits
    } else {
        0
    }
}

/// The smaller of two integers.
pub open spec fn min_int(a: int, b: int) -> int {
    if a <= b {
        a
    } else {
        b
    }
}

/// The account after a settled fee of magnitude `pay` is credited to it.
pub open spec fn after_fee(account: Account, pay: int) -> Account {
    Account {
        capital: account.capital,
        fee_credits: accumulated(account.fee_credits as int, pay) as i128,
    }
}

impl Account {
    /// A freshly opened account: the given capital and a zero fee balance.
    pub fn new(capital: u128) -> (r: Account)
        ensures
            r.capital == capital,
            r.fee_credits == 0,
    {
        Account { capital, fee_credits: 0 }
    }
}

/// The fee debt that one payment can clear, as a payment magnitude.
fn debt_of(fee_credits: FeeCredits) -> (r: Payment)
    ensures
        r == fee_debt(fee_credits as int),
{
    if fee_credits < -SIGNED_MAX {
        SIGNED_MAX as u128
    } else if fee_credits < 0 {
        (-fee_credits) as u128
    } else {
        0
    }
}

/// Credits the maintenance fee `pay` settled since the last settlement.
pub fn settle_maintenance_fee(account: &mut Account, pay: Payment)
    ensures
        *final(account) == after_fee(*old(account), pay as int),
{
    account.fee_credits = accumulate(account.fee_credits, pay);
}

/// Best-effort maintenance settlement as run by a crank over many accounts:
/// a missing record is reported and changes nothing, and settling one account
/// never touches another, so the rest of the pass goes on unaffected.
pub fn settle_maintenance_fee_best_effort_for_crank(
    accounts: &mut Vec<Account>,
    index: usize,
    pay: Payment,
) -> (r: Result<(), SettleError>)
    ensures
        r is Ok <==> index < old(accounts).len(),
        r is Ok ==> final(accounts)@ == old(accounts)@.update(
            index as int,
            after_fee(old(accounts)@[index as int], pay as int),
        ),
        r is Err ==> r == Err::<(), SettleError>(SettleError::MissingAccount) && final(accounts)@
            == old(accounts)@,
{
    if index >= accounts.len() {
        return Err(SettleError::MissingAccount);
    }
    let mut account = accounts[index];
    settle_maintenance_fee(&mut account, pay);
    accounts.set(index, account);
    Ok(())
}

/// Repays as much fee debt as the posted capital covers: the amount paid is
/// taken from capital and credited to the fee balance. Returns that amount.
pub fn pay_fee_debt_from_capital(account: &mut Account) -> (paid: Payment)
    ensures
        paid == min_int(old(account).capital as int, fee_debt(old(account).fee_credits as int)),
        final(account).capital == old(account).capital - paid,
        final(account).fee_credits == accumulated(old(account).fee_credits as int, paid as int),
        final(account).fee_credits == old(account).fee_credits + paid,
{
    let debt = debt_of(account.fee_credits);
    let paid: u128 = if account.capital <= debt {
        account.capital
    } else {
        debt
    };
    account.capital = account.capital - paid;
    account.fee_credits = accumulate(account.fee_credits, paid);
    paid
}

/// Deposits `amount`: the part that covers outstanding fee debt is credited to
/// the fee balance and the rest is added to capital. Returns the part applied
/// to fees. Fails, changing nothing, when the rest would overflow capital.
pub fn deposit(account: &mut Account, amount: Payment) -> (r: Result<Payment, SettleError>)
    ensures
        ({
            let pay = min_int(amount as int, fee_debt(old(account).fee_credits as int));
            &&& r is Ok <==> old(account).capital + (amount - pay) <= u128::MAX
            &&& r is Ok ==> r == Ok::<Payment, SettleError>(pay as u128) && final(account).capital
                == old(account).capital + (amount - pay) && final(account).fee_credits
                == accumulated(old(account).fee_credits as int, pay) && final(account).fee_credits
                == old(account).fee_credits + pay
            &&& r is Err ==> r == Err::<Payment, SettleError>(SettleError::CapitalOverflow)
                && *final(account) == *old(account)
        }),
{
    let debt = debt_of(account.fee_credits);
    let pay: u128 = if amount <= debt {
        amount
    } else {
        debt
    };
    let rest: u128 = amount - pay;
    if account.capital > u128::MAX - rest {
        return Err(SettleError::CapitalOverflow);
    }
    account.capital = account.capital + rest;
    account.fee_credits = accumulate(account.fee_credits, pay);
    Ok(pay)
}

} // verus!
