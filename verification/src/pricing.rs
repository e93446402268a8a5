use vstd::prelude::*;
use vstd::arithmetic::div_mod::lemma_fundamental_div_mod;
use crate::error::ErrorCode;

verus! {

/// What the vault of the asset paid out holds after a swap: the product of
/// the two balances before it, divided by the new balance of the asset paid
/// in, rounded down.
pub open spec fn balance_out_after(balance_in: u64, balance_out: u64, input_amount: u64) -> int
    recommends
        balance_in + input_amount > 0,
{
    (balance_in * balance_out) / (balance_in + input_amount)
}

/// What a swap pays out: the drop of the out-balance to `balance_out_after`.
pub open spec fn output_amount(balance_in: u64, balance_out: u64, input_amount: u64) -> int
    recommends
        balance_in + input_amount > 0,
{
    balance_out - balance_out_after(balance_in, balance_out, input_amount)
}

/// The price of a swap against the two vault balances, or why there is none.
pub open spec fn quoted(balance_in: u64, balance_out: u64, input_amount: u64) -> Result<
    u64,
    ErrorCode,
> {
    if input_amount == 0 {
        Err(ErrorCode::InvalidAmount)
    } else if balance_in + input_amount > u64::MAX {
        Err(ErrorCode::Overflow)
    } else if output_amount(balance_in, balance_out, input_amount) == 0 {
        Err(ErrorCode::OutputTooSmall)
    } else {
        Ok(output_amount(balance_in, balance_out, input_amount) as u64)
    }
}

/// What a swap does, given the pool's tracked totals, the two vault balances
/// and what the trader holds of the asset paid in: the amount paid out, or
/// the first reason to refuse.
pub open spec fn swap_outcome(
    tracked_in: u64,
    tracked_out: u64,
    balance_in: u64,
    balance_out: u64,
    trader_balance: u64,
    input_amount: u64,
) -> Result<u64, ErrorCode> {
    match quoted(balance_in, balance_out, input_amount) {
        Err(e) => Err(e),
        Ok(output) => if trader_balance < input_amount {
            Err(ErrorCode::InsufficientTraderBalance)
        } else if tracked_in + input_amount > u64::MAX {
            Err(ErrorCode::Overflow)
        } else if tracked_out < output {
            Err(ErrorCode::Underflow)
        } else {
            Ok(output)
        },
    }
}

/// The out-balance never grows in a swap, and never drops below zero.
pub proof fn output_is_bounded(balance_in: u64, balance_out: u64, input_amount: u64)
    requires
        balance_in + input_amount > 0,
    ensures
        0 <= balance_out_after(balance_in, balance_out, input_amount) <= balance_out,
        0 <= output_amount(balance_in, balance_out, input_amount) <= balance_out,
{
    let k = balance_in * balance_out;
    let n = balance_in + input_amount;
    lemma_fundamental_div_mod(k, n);
    let q = k / n;
    assert(0 <= k % n < n);
    assert(k <= n * balance_out) by (nonlinear_arith)
        requires
            k == balance_in * balance_out,
            n == balance_in + input_amount,
            input_amount >= 0,
            balance_out >= 0,
    ;
    assert(q <= balance_out) by (nonlinear_arith)
        requires
            n * q <= n * balance_out,
            n > 0,
    ;
    assert(q >= 0) by (nonlinear_arith)
        requires
            n * q + n > 0,
            n > 0,
    ;
}

/// A priced swap keeps the product of the two vault balances, up to the
/// remainder of the division: the product after the swap is never above the
/// product before it, and falls short by less than the new in-balance.
pub proof fn constant_product_is_kept(balance_in: u64, balance_out: u64, input_amount: u64)
    requires
        quoted(balance_in, balance_out, input_amount) is Ok,
    ensures
        ({
            let output = quoted(balance_in, balance_out, input_amount)->Ok_0;
            let before = balance_in * balance_out;
            let after = (balance_in + input_amount) * (balance_out - output);
            &&& 0 < output <= balance_out
            &&& after <= before
            &&& before - after <= balance_in + input_amount - 1
        }),
{
    output_is_bounded(balance_in, balance_out, input_amount);
    let k = balance_in * balance_out;
    let n = balance_in + input_amount;
    lemma_fundamental_div_mod(k, n);
    assert(0 <= k % n < n);
}

/// A swap of something pays out nothing exactly when the vault of the asset
/// paid out is empty.
pub proof fn no_output_only_from_an_empty_vault(balance_in: u64, balance_out: u64, input_amount: u64)
    requires
        input_amount > 0,
    ensures
        output_amount(balance_in, balance_out, input_amount) == 0 <==> balance_out == 0,
{
    let k = balance_in * balance_out;
    let n = balance_in + input_amount;
    lemma_fundamental_div_mod(k, n);
    assert(0 <= k % n < n);
    if balance_out == 0 {
        assert(k == 0) by (nonlinear_arith)
            requires
                k == balance_in * balance_out,
                balance_out == 0,
        ;
        assert(k / n == 0) by (nonlinear_arith)
            requires
                k == n * (k / n) + k % n,
                0 <= k % n < n,
                k == 0,
                n > 0,
        ;
    } else {
        assert(k < n * balance_out) by (nonlinear_arith)
            requires
                k == balance_in * balance_out,
                n == balance_in + input_amount,
                input_amount > 0,
                balance_out > 0,
        ;
        assert(k / n < balance_out) by (nonlinear_arith)
            requires
                k == n * (k / n) + k % n,
                0 <= k % n,
                k < n * balance_out,
                n > 0,
        ;
    }
}

/// Every swap that goes through keeps the product of the two vault balances
/// up to the remainder of the division, pays out something, takes no more
/// than the trader holds, and leaves every balance it touches a 64-bit
/// amount.
pub proof fn settled_swap_is_sound(
    tracked_in: u64,
    tracked_out: u64,
    balance_in: u64,
    balance_out: u64,
    trader_balance: u64,
    input_amount: u64,
)
    requires
        swap_outcome(
            tracked_in,
            tracked_out,
            balance_in,
            balance_out,
            trader_balance,
            input_amount,
        ) is Ok,
    ensures
        ({
            let output = swap_outcome(
                tracked_in,
                tracked_out,
                balance_in,
                balance_out,
                trader_balance,
                input_amount,
            )->Ok_0;
            let before = balance_in * balance_out;
            let after = (balance_in + input_amount) * (balance_out - output);
            &&& output == output_amount(balance_in, balance_out, input_amount)
            &&& after <= before
            &&& before - after <= balance_in + input_amount - 1
            &&& 0 < input_amount <= trader_balance
            &&& 0 < output <= balance_out
            &&& output <= tracked_out
            &&& balance_in + input_amount <= u64::MAX
            &&& tracked_in + input_amount <= u64::MAX
        }),
{
    output_is_bounded(balance_in, balance_out, input_amount);
    constant_product_is_kept(balance_in, balance_out, input_amount);
}

/// Prices a swap of `input_amount` against the two vault balances.
///
/// The out-balance drops to the product of the two balances divided by the
/// new in-balance, rounded down; the vault pays out the difference. No fee
/// is taken.
pub fn quote(balance_in: u64, balance_out: u64, input_amount: u64) -> (r: Result<u64, ErrorCode>)
    ensures
        r == quoted(balance_in, balance_out, input_amount),
{
    if input_amount == 0 {
        return Err(ErrorCode::InvalidAmount);
    }
    let new_balance_in: u64 = match balance_in.checked_add(input_amount) {
        Some(sum) => sum,
        None => {
            return Err(ErrorCode::Overflow);
        },
    };
    proof {
        output_is_bounded(balance_in, balance_out, input_amount);
        assert(balance_in * balance_out <= u128::MAX) by (nonlinear_arith)
            requires
                balance_in <= u64::MAX,
                balance_out <= u64::MAX,
        ;
    }
    let k: u128 = (balance_in as u128) * (balance_out as u128);
    let new_balance_out: u128 = k / (new_balance_in as u128);
    if new_balance_out > balance_out as u128 {
        return Err(ErrorCode::InsufficientPoolBalance);
    }
    let output: u64 = balance_out - (new_balance_out as u64);
    if output == 0 {
        return Err(ErrorCode::OutputTooSmall);
    }
    Ok(output)
}

/// Decides a swap in full: prices it, checks that the trader can pay, and
/// checks that the pool's tracked totals can follow.
pub fn settle_swap(
    tracked_in: u64,
    tracked_out: u64,
    balance_in: u64,
    balance_out: u64,
    trader_balance: u64,
    input_amount: u64,
) -> (r: Result<u64, ErrorCode>)
    ensures
        r == swap_outcome(
            tracked_in,
            tracked_out,
            balance_in,
            balance_out,
            trader_balance,
            input_amount,
        ),
{
    let output: u64 = match quote(balance_in, balance_out, input_amount) {
        Ok(output) => output,
        Err(e) => {
            return Err(e);
        },
    };
    if trader_balance < input_amount {
        return Err(ErrorCode::InsufficientTraderBalance);
    }
    if tracked_in.checked_add(input_amount).is_none() {
        return Err(ErrorCode::Overflow);
    }
    if tracked_out < output {
        return Err(ErrorCode::Underflow);
    }
    Ok(output)
}

} // verus!
