//! The fee-credit balance and the single operation that mutates it.
use vstd::prelude::*;

verus! {

/// An account's net fee position: positive when credits are owed to the
/// account, negative when the account owes fees.
pub type FeeCredits = i128;

/// A fee amount moved in one settlement event; a magnitude, never a delta.
pub type Payment = u128;

/// Largest balance the ledger can hold, and the cap of a converted payment.
pub const SIGNED_MAX: i128 = i128::MAX;

/// Smallest balance the ledger can hold.
pub const SIGNED_MIN: i128 = i128::MIN;

/// The signed delta that a payment magnitude stands for: the payment itself,
/// capped at `SIGNED_MAX`.
pub open spec fn clamped_delta(pay: int) -> int {
    if pay > SIGNED_MAX {
        SIGNED_MAX as int
    } else {
        pay
    }
}

/// `x` brought into the range of `FeeCredits` by clamping at either bound.
pub open spec fn saturate(x: int) -> int {
    if x > SIGNED_MAX {
        SIGNED_MAX as int
    } else if x < SIGNED_MIN {
        SIGNED_MIN as int
    } else {
        x
    }
}

/// The balance after a payment of magnitude `pay` is credited to `balance`.
pub open spec fn accumulated(balance: int, pay: int) -> int {
    saturate(balance + clamped_delta(pay))
}

/// Converts a payment magnitude to a signed delta, capping it at `SIGNED_MAX`
/// instead of wrapping.
pub fn u128_to_i128_clamped(pay: Payment) -> (r: i128)
    ensures
        r == clamped_delta(pay as int),
        pay <= SIGNED_MAX ==> r == pay,
        pay > SIGNED_MAX ==> r == SIGNED_MAX,
        r >= 0,
{
    if pay > SIGNED_MAX as u128 {
        SIGNED_MAX
    } else {
        pay as i128
    }
}

/// Adds two balances, clamping the sum at `SIGNED_MIN` and `SIGNED_MAX`.
pub fn saturating_add_credits(a: FeeCredits, b: FeeCredits) -> (r: FeeCredits)
    ensures
        r == saturate(a + b),
{
    if b >= 0 {
        if a > SIGNED_MAX - b {
            SIGNED_MAX
        } else {
            a + b
        }
    } else {
        if a < SIGNED_MIN - b {
            SIGNED_MIN
        } else {
            a + b
        }
    }
}

/// Credits a payment to a balance: the payment is converted with
/// `u128_to_i128_clamped` and added with `saturating_add_credits`. Total: it
/// never fails, wraps or panics.
pub fn accumulate(balance: FeeCredits, pay: Payment) -> (r: FeeCredits)
    ensures
        r == accumulated(balance as int, pay as int),
        pay <= SIGNED_MAX && balance + pay <= SIGNED_MAX ==> r == balance + pay,
        r >= balance,
{
    saturating_add_credits(balance, u128_to_i128_clamped(pay))
}

/// Below the clamp threshold a payment is converted exactly, so the balance
/// grows by exactly `pay` unless the sum saturates at `SIGNED_MAX`.
pub proof fn lemma_exact_below_threshold(balance: FeeCredits, pay: Payment)
    requires
        pay <= SIGNED_MAX,
    ensures
        clamped_delta(pay as int) == pay,
        accumulated(balance as int, pay as int) == if balance + pay > SIGNED_MAX {
            SIGNED_MAX as int
        } else {
            balance + pay
        },
{
}

/// Above the clamp threshold the converted delta is exactly `SIGNED_MAX`,
/// which is positive: never a negative or wrapped value.
pub proof fn lemma_clamped_above_threshold(balance: FeeCredits, pay: Payment)
    requires
        pay > SIGNED_MAX,
    ensures
        clamped_delta(pay as int) == SIGNED_MAX,
        accumulated(balance as int, pay as int) == saturate(balance + SIGNED_MAX),
        accumulated(balance as int, pay as int) >= balance,
{
}

/// Crediting a payment never lowers the balance, the result always lies
/// between `SIGNED_MIN` and `SIGNED_MAX`, and where nothing saturates the
/// balance grows by exactly the payment.
pub proof fn lemma_accumulate_bounds(balance: FeeCredits, pay: Payment)
    ensures
        accumulated(balance as int, pay as int) >= balance,
        SIGNED_MIN <= accumulated(balance as int, pay as int) <= SIGNED_MAX,
        pay <= SIGNED_MAX && balance + pay <= SIGNED_MAX ==> accumulated(balance as int, pay as int)
            == balance + pay,
{
}

/// Crediting `pay1` and then `pay2` against crediting them in one step.
/// When both payments are at most `SIGNED_MAX`, the two-step result is the
/// unsaturated sum clamped at `SIGNED_MAX`. When their sum is at most
/// `SIGNED_MAX` as well, the two steps equal the single step. Whenever the sum
/// is itself a payment, the two steps never give less than the single step.
pub proof fn lemma_accumulate_in_two_steps(balance: FeeCredits, pay1: Payment, pay2: Payment)
    ensures
        pay1 <= SIGNED_MAX && pay2 <= SIGNED_MAX ==> accumulated(
            accumulated(balance as int, pay1 as int),
            pay2 as int,
        ) == if balance + pay1 + pay2 > SIGNED_MAX {
            SIGNED_MAX as int
        } else {
            balance + pay1 + pay2
        },
        pay1 + pay2 <= SIGNED_MAX ==> accumulated(accumulated(balance as int, pay1 as int), pay2 as int)
            == accumulated(balance as int, pay1 + pay2),
        pay1 + pay2 <= u128::MAX ==> accumulated(
            accumulated(balance as int, pay1 as int),
            pay2 as int,
        ) >= accumulated(balance as int, pay1 + pay2),
{
}

} // verus!
