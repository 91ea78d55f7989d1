//! The proportional-share arithmetic: commission on an accrual, conversion
//! between deposits and shares at the pool's current price, and the laws
//! these conversions obey.

use vstd::prelude::*;
use vstd::arithmetic::div_mod::{
    lemma_div_denominator, lemma_div_is_ordered, lemma_div_multiples_vanish,
    lemma_fundamental_div_mod, lemma_div_pos_is_pos,
};
use vstd::arithmetic::mul::{lemma_mul_inequality, lemma_mul_is_commutative};
use crate::error::ProgramError;

verus! {

/// The part of an accrual of `delta` retained as backing for existing
/// shares: `floor(delta * rate / 10000)`.
pub open spec fn spec_commission(delta: u64, rate_bips: u16) -> int {
    delta * rate_bips / 10000
}

/// The retained part never exceeds the accrual.
pub proof fn lemma_commission_bounded(delta: u64, rate_bips: u16)
    requires
        rate_bips <= 10000,
    ensures
        0 <= spec_commission(delta, rate_bips) <= delta,
{
    lemma_div_pos_is_pos(delta * rate_bips, 10000);
    lemma_mul_inequality(rate_bips as int, 10000, delta as int);
    lemma_mul_is_commutative(delta as int, rate_bips as int);
    lemma_mul_is_commutative(delta as int, 10000);
    lemma_div_is_ordered(delta * rate_bips, delta * 10000, 10000);
    lemma_div_multiples_vanish(delta as int, 10000);
}

/// `floor(delta * rate_bips / 10000)`, widened so the multiply cannot
/// overflow.
pub fn commission_amount(delta: u64, rate_bips: u16) -> (r: u64)
    requires
        rate_bips <= 10000,
    ensures
        r == spec_commission(delta, rate_bips),
        r <= delta,
{
    proof {
        lemma_commission_bounded(delta, rate_bips);
    }
    (((delta as u128) * (rate_bips as u128)) / 10000) as u64
}

/// The shares a deposit of `amount` buys when the pool holds
/// `total_shares` shares backed by `balance` tokens, sampled before the
/// deposit lands: `amount` itself at share:token parity, else
/// `floor(amount * total_shares / balance)`.
pub open spec fn spec_shares_for_amount(amount: u64, total_shares: u64, balance: u64) -> int {
    if total_shares == balance {
        amount as int
    } else {
        amount * total_shares / (balance as int)
    }
}

/// What converting a deposit to shares decides: a backing of zero under
/// outstanding shares is an invariant violation, a quotient beyond `u64` is
/// an arithmetic failure, anything else is the minted share count.
pub open spec fn spec_shares_for_amount_checked(
    amount: u64,
    total_shares: u64,
    balance: u64,
) -> Result<u64, ProgramError> {
    if total_shares == balance {
        Ok(amount)
    } else if balance == 0 {
        Err(ProgramError::InvalidAccountData)
    } else if spec_shares_for_amount(amount, total_shares, balance) > u64::MAX {
        Err(ProgramError::ArithmeticOverflow)
    } else {
        Ok(spec_shares_for_amount(amount, total_shares, balance) as u64)
    }
}

/// Converts a deposit to shares at the current price.
pub fn shares_for_amount(amount: u64, total_shares: u64, balance: u64) -> (r: Result<
    u64,
    ProgramError,
>)
    ensures
        r == spec_shares_for_amount_checked(amount, total_shares, balance),
{
    if total_shares == balance {
        return Ok(amount);
    }
    if balance == 0 {
        return Err(ProgramError::InvalidAccountData);
    }
    proof {
        assert((amount as u128) * (total_shares as u128) <= (u64::MAX as u128) * (
        u64::MAX as u128)) by (nonlinear_arith)
            requires
                amount as u128 <= u64::MAX as u128,
                total_shares as u128 <= u64::MAX as u128,
        ;
    }
    let wide: u128 = ((amount as u128) * (total_shares as u128)) / (balance as u128);
    proof {
        assert(wide == amount * total_shares / (balance as int)) by {
            assert((amount as u128) * (total_shares as u128) == amount * total_shares);
        }
    }
    if wide > u64::MAX as u128 {
        return Err(ProgramError::ArithmeticOverflow);
    }
    Ok(wide as u64)
}

/// The tokens a withdrawal of `shares` is worth at the current price:
/// `shares` itself at parity, else `floor(shares * balance /
/// total_shares)`. With `shares <= total_shares` the value never exceeds
/// the backing.
pub open spec fn spec_tokens_for_shares(shares: u64, total_shares: u64, balance: u64) -> int {
    if total_shares == balance {
        shares as int
    } else if total_shares == 0 {
        0
    } else {
        shares * balance / (total_shares as int)
    }
}

/// Converts a share count back to tokens at the current price.
pub fn tokens_for_shares(shares: u64, total_shares: u64, balance: u64) -> (r: u64)
    requires
        shares <= total_shares,
    ensures
        r == spec_tokens_for_shares(shares, total_shares, balance),
        r <= balance || total_shares == balance,
{
    if total_shares == balance {
        return shares;
    }
    if total_shares == 0 {
        return 0;
    }
    proof {
        assert((shares as u128) * (balance as u128) <= (u64::MAX as u128) * (u64::MAX as u128))
            by (nonlinear_arith)
            requires
                shares as u128 <= u64::MAX as u128,
                balance as u128 <= u64::MAX as u128,
        ;
    }
    let wide: u128 = ((shares as u128) * (balance as u128)) / (total_shares as u128);
    proof {
        assert(wide == shares * balance / (total_shares as int)) by {
            assert((shares as u128) * (balance as u128) == shares * balance);
        }
        lemma_mul_inequality(shares as int, total_shares as int, balance as int);
        lemma_mul_is_commutative(total_shares as int, balance as int);
        lemma_div_is_ordered(shares * balance, balance * total_shares, total_shares as int);
        lemma_div_multiples_vanish(balance as int, total_shares as int);
    }
    wide as u64
}

/// A deposit at share:token parity mints exactly the deposit: no value is
/// created or destroyed.
pub proof fn lemma_deposit_at_parity(amount: u64, total_shares: u64, balance: u64)
    requires
        total_shares == balance,
    ensures
        spec_shares_for_amount_checked(amount, total_shares, balance) == Ok::<u64, ProgramError>(
            amount,
        ),
{
}

/// Minting at the current price never lowers the price: the new backing
/// over the new share count is at least the old backing over the old share
/// count, stated multiplied out. The retained commission remainder is added
/// to the backing without shares being minted for it, so it can only raise
/// the price.
pub proof fn lemma_accrual_price_monotonic(
    total_shares: u64,
    balance: u64,
    delta: u64,
    rate_bips: u16,
)
    requires
        total_shares > 0,
        balance > 0,
        rate_bips <= 10000,
        spec_commission(delta, rate_bips) > 0,
    ensures
        ({
            let cut = (delta - spec_commission(delta, rate_bips)) as u64;
            let minted = spec_shares_for_amount(cut, total_shares, balance);
            (balance + delta) * total_shares >= balance * (total_shares + minted)
        }),
{
    let c = spec_commission(delta, rate_bips);
    lemma_commission_bounded(delta, rate_bips);
    let cut = (delta - c) as u64;
    let t = total_shares as int;
    let b = balance as int;
    let minted = spec_shares_for_amount(cut, total_shares, balance);
    if total_shares == balance {
        assert(minted == cut as int);
        assert((b + delta) * t >= b * (t + minted)) by (nonlinear_arith)
            requires
                t == b,
                minted == delta - c,
                0 <= c <= delta,
                t > 0,
        ;
    } else {
        assert(minted == cut * t / b);
        lemma_fundamental_div_mod(cut * t, b);
        vstd::arithmetic::div_mod::lemma_mod_bound(cut * t, b);
        assert(b * minted <= cut * t);
        assert((b + delta) * t >= b * (t + minted)) by (nonlinear_arith)
            requires
                b * minted <= cut * t,
                cut == delta - c,
                0 <= c <= delta,
                b > 0,
                t > 0,
        ;
    }
}

/// The sum of the outstanding shares of a run of ledgers.
pub open spec fn spec_sum_shares(ledgers: Seq<u64>) -> int
    decreases ledgers.len(),
{
    if ledgers.len() == 0 {
        0
    } else {
        spec_sum_shares(ledgers.drop_last()) + ledgers.last()
    }
}

/// Changing one ledger changes the sum by the same difference.
pub proof fn lemma_sum_shares_update(ledgers: Seq<u64>, i: int, v: u64)
    requires
        0 <= i < ledgers.len(),
    ensures
        spec_sum_shares(ledgers.update(i, v)) == spec_sum_shares(ledgers) - ledgers[i] + v,
    decreases ledgers.len(),
{
    if i == ledgers.len() - 1 {
        assert(ledgers.update(i, v).drop_last() =~= ledgers.drop_last());
    } else {
        assert(ledgers.update(i, v).drop_last() =~= ledgers.drop_last().update(i, v));
        lemma_sum_shares_update(ledgers.drop_last(), i, v);
    }
}

/// The share invariant is preserved by every operation that credits or
/// debits one ledger and the pool total by the same difference: if the
/// pool's total equals the sum of its ledgers before, it does after.
pub proof fn lemma_share_invariant_preserved(
    ledgers: Seq<u64>,
    i: int,
    new_ledger: u64,
    total_before: u64,
    total_after: u64,
)
    requires
        0 <= i < ledgers.len(),
        total_before == spec_sum_shares(ledgers),
        total_after - total_before == new_ledger - ledgers[i],
    ensures
        total_after == spec_sum_shares(ledgers.update(i, new_ledger)),
{
    lemma_sum_shares_update(ledgers, i, new_ledger);
}

/// A deposit when each share is backed by two tokens mints half the
/// deposit, rounded down.
pub proof fn lemma_deposit_at_half_price(amount: u64, total_shares: u64, balance: u64)
    requires
        total_shares > 0,
        balance == 2 * total_shares,
    ensures
        spec_shares_for_amount(amount, total_shares, balance) == amount as int / 2,
{
    let t = total_shares as int;
    let a = amount as int;
    assert(a * t / (2 * t) == a / 2) by {
        lemma_div_denominator(a * t, t, 2);
        lemma_div_multiples_vanish(a, t);
        lemma_mul_is_commutative(a, t);
    }
    assert(balance as int == t * 2) by {
        lemma_mul_is_commutative(t, 2);
    }
}

} // verus!
