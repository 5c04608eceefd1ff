use crate::error::DexError;
use vstd::arithmetic::div_mod::{lemma_fundamental_div_mod, lemma_multiply_divide_lt};
use vstd::prelude::*;

verus! {

/// Of every 1000 units paid in, 997 take part in the trade.
pub const FEE_NUMERATOR: u64 = 997;

pub const FEE_DENOMINATOR: u64 = 1000;

/// The part of `input_amount` that trades, scaled by `FEE_DENOMINATOR`.
pub open spec fn effective_input(input_amount: nat) -> nat {
    input_amount * (FEE_NUMERATOR as nat)
}

pub open spec fn swap_numerator(output_reserve: nat, input_amount: nat) -> nat {
    effective_input(input_amount) * output_reserve
}

pub open spec fn swap_denominator(input_reserve: nat, input_amount: nat) -> nat {
    input_reserve * (FEE_DENOMINATOR as nat) + effective_input(input_amount)
}

/// The constant-product price with the fee taken off the input first,
/// rounded down.
pub open spec fn swap_output(input_reserve: nat, output_reserve: nat, input_amount: nat) -> nat {
    swap_numerator(output_reserve, input_amount) / swap_denominator(input_reserve, input_amount)
}

/// What `calculate_swap_out` answers, as a function of its three inputs.
pub open spec fn quote(input_reserve: u64, output_reserve: u64, input_amount: u64) -> Result<
    u64,
    DexError,
> {
    if input_reserve == 0 || output_reserve == 0 {
        Err(DexError::EmptyPool)
    } else if swap_numerator(output_reserve as nat, input_amount as nat) > u128::MAX {
        Err(DexError::ArithmeticOverflow)
    } else {
        Ok(swap_output(input_reserve as nat, output_reserve as nat, input_amount as nat) as u64)
    }
}

/// The amount of the output asset paid for `input_amount` of the input
/// asset, at the given reserves.
///
/// Both reserves must hold something, and the numerator of the price must
/// fit in 128 bits. The answer is the exact price rounded down, in the
/// pool's favour, and always less than the output reserve.
pub fn calculate_swap_out(input_reserve: u64, output_reserve: u64, input_amount: u64) -> (r: Result<
    u64,
    DexError,
>)
    ensures
        r == quote(input_reserve, output_reserve, input_amount),
        r matches Ok(amount_out) ==> {
            &&& amount_out < output_reserve
            &&& amount_out * swap_denominator(input_reserve as nat, input_amount as nat)
                <= swap_numerator(output_reserve as nat, input_amount as nat)
            &&& swap_numerator(output_reserve as nat, input_amount as nat) < (amount_out + 1)
                * swap_denominator(input_reserve as nat, input_amount as nat)
        },
{
    if input_reserve == 0 || output_reserve == 0 {
        return Err(DexError::EmptyPool);
    }
    proof {
        lemma_fee_terms(input_reserve as nat, input_amount as nat);
        lemma_output_rounds_down(input_reserve as nat, output_reserve as nat, input_amount as nat);
    }
    let input_amount_with_fee: u128 = (input_amount as u128) * (FEE_NUMERATOR as u128);
    let numerator: u128 = match input_amount_with_fee.checked_mul(output_reserve as u128) {
        Some(n) => n,
        None => {
            return Err(DexError::ArithmeticOverflow);
        },
    };
    let denominator: u128 = (input_reserve as u128) * (FEE_DENOMINATOR as u128)
        + input_amount_with_fee;
    let amount_out: u128 = numerator / denominator;
    proof {
        lemma_output_below_reserve(input_reserve as nat, output_reserve as nat, input_amount as nat);
    }
    Ok(amount_out as u64)
}

/// What `check_liquidity` answers.
pub open spec fn liquidity_verdict(amount_out: u64, output_reserve: u64) -> Result<(), DexError> {
    if amount_out == 0 || amount_out >= output_reserve {
        Err(DexError::InsufficientLiquidity)
    } else {
        Ok(())
    }
}

/// Refuses a payout of nothing, and one that would not leave the paying
/// reserve strictly positive.
pub fn check_liquidity(amount_out: u64, output_reserve: u64) -> (r: Result<(), DexError>)
    ensures
        r == liquidity_verdict(amount_out, output_reserve),
{
    if amount_out == 0 || amount_out >= output_reserve {
        Err(DexError::InsufficientLiquidity)
    } else {
        Ok(())
    }
}

/// The two fee constants written out, for arithmetic over the terms above.
pub proof fn lemma_fee_terms(input_reserve: nat, input_amount: nat)
    ensures
        effective_input(input_amount) == 997 * input_amount,
        swap_denominator(input_reserve, input_amount) == 1000 * input_reserve + 997 * input_amount,
{
    assert(input_amount * (FEE_NUMERATOR as nat) == 997 * input_amount) by (nonlinear_arith)
        requires
            FEE_NUMERATOR == 997,
    ;
    assert(input_reserve * (FEE_DENOMINATOR as nat) == 1000 * input_reserve) by (nonlinear_arith)
        requires
            FEE_DENOMINATOR == 1000,
    ;
}

/// Against a pool with something on the input side, the price never
/// reaches the whole output reserve.
pub proof fn lemma_output_below_reserve(input_reserve: nat, output_reserve: nat, input_amount: nat)
    requires
        input_reserve > 0,
        output_reserve > 0,
    ensures
        swap_output(input_reserve, output_reserve, input_amount) < output_reserve,
{
    lemma_fee_terms(input_reserve, input_amount);
    let e = effective_input(input_amount) as int;
    let d = swap_denominator(input_reserve, input_amount) as int;
    let b = output_reserve as int;
    assert(e * b < d * b) by (nonlinear_arith)
        requires
            e < d,
            b > 0,
    ;
    lemma_multiply_divide_lt(e * b, d, b);
}

/// The price is the quotient rounded down: paying it out never costs the
/// pool more than the exact constant-product price, and one unit more
/// would.
pub proof fn lemma_output_rounds_down(input_reserve: nat, output_reserve: nat, input_amount: nat)
    requires
        input_reserve > 0,
    ensures
        swap_output(input_reserve, output_reserve, input_amount) * swap_denominator(
            input_reserve,
            input_amount,
        ) <= swap_numerator(output_reserve, input_amount),
        swap_numerator(output_reserve, input_amount) < (swap_output(
            input_reserve,
            output_reserve,
            input_amount,
        ) + 1) * swap_denominator(input_reserve, input_amount),
{
    lemma_fee_terms(input_reserve, input_amount);
    let n = swap_numerator(output_reserve, input_amount) as int;
    let d = swap_denominator(input_reserve, input_amount) as int;
    lemma_fundamental_div_mod(n, d);
    assert(0 <= n % d < d) by (nonlinear_arith)
        requires
            d > 0,
    ;
    assert((n / d) * d == d * (n / d) && (n / d + 1) * d == d * (n / d) + d) by (nonlinear_arith);
}

/// Nothing is paid for nothing.
pub proof fn lemma_zero_input_pays_nothing(input_reserve: nat, output_reserve: nat)
    requires
        input_reserve > 0,
    ensures
        swap_output(input_reserve, output_reserve, 0) == 0,
{
    lemma_fee_terms(input_reserve, 0);
    assert(swap_numerator(output_reserve, 0) == 0) by (nonlinear_arith)
        requires
            swap_numerator(output_reserve, 0) == effective_input(0) * output_reserve,
            effective_input(0) == 0,
    ;
    lemma_output_rounds_down(input_reserve, output_reserve, 0);
    let y = swap_output(input_reserve, output_reserve, 0) as int;
    let d = swap_denominator(input_reserve, 0) as int;
    assert(y == 0) by (nonlinear_arith)
        requires
            y * d <= 0,
            d > 0,
            y >= 0,
    ;
}

/// Taking `input_amount` in and paying the price out never lowers the
/// product of the two reserves, and raises it whenever anything is paid in.
pub proof fn lemma_swap_grows_product(input_reserve: nat, output_reserve: nat, input_amount: nat)
    requires
        input_reserve > 0,
        output_reserve > 0,
    ensures
        (input_reserve + input_amount) * (output_reserve - swap_output(
            input_reserve,
            output_reserve,
            input_amount,
        )) >= input_reserve * output_reserve,
        input_amount > 0 ==> (input_reserve + input_amount) * (output_reserve - swap_output(
            input_reserve,
            output_reserve,
            input_amount,
        )) > input_reserve * output_reserve,
{
    lemma_fee_terms(input_reserve, input_amount);
    lemma_output_rounds_down(input_reserve, output_reserve, input_amount);
    let a = input_reserve as int;
    let b = output_reserve as int;
    let x = input_amount as int;
    let y = swap_output(input_reserve, output_reserve, input_amount) as int;
    assert(swap_numerator(output_reserve, input_amount) == 997 * x * b) by (nonlinear_arith)
        requires
            swap_numerator(output_reserve, input_amount) == effective_input(input_amount) * b,
            effective_input(input_amount) == 997 * x,
    ;
    assert(y * (1000 * a + 997 * x) <= 997 * x * b);
    assert(y * (a + x) <= x * b) by (nonlinear_arith)
        requires
            y * (1000 * a + 997 * x) <= 997 * x * b,
            a > 0,
            x >= 0,
            y >= 0,
    ;
    assert((a + x) * (b - y) == a * b + (x * b - y * (a + x))) by (nonlinear_arith);
    if x > 0 {
        assert(y * (a + x) < x * b) by (nonlinear_arith)
            requires
                y * (1000 * a + 997 * x) <= 997 * x * b,
                a > 0,
                b > 0,
                x > 0,
                y >= 0,
        ;
    }
}

/// Trading there and back loses to the fee: what a swap paid out, swapped
/// straight back, returns strictly less than was first paid in.
pub proof fn lemma_round_trip_loses(input_reserve: nat, output_reserve: nat, input_amount: nat)
    requires
        input_reserve > 0,
        output_reserve > 0,
        swap_output(input_reserve, output_reserve, input_amount) > 0,
    ensures
        swap_output(
            (output_reserve - swap_output(input_reserve, output_reserve, input_amount)) as nat,
            input_reserve + input_amount,
            swap_output(input_reserve, output_reserve, input_amount),
        ) < input_amount,
{
    let y = swap_output(input_reserve, output_reserve, input_amount);
    lemma_output_below_reserve(input_reserve, output_reserve, input_amount);
    lemma_fee_terms(input_reserve, input_amount);
    lemma_output_rounds_down(input_reserve, output_reserve, input_amount);
    let back_reserve = (output_reserve - y) as nat;
    let forth_reserve = input_reserve + input_amount;
    lemma_fee_terms(back_reserve, y);
    let a = input_reserve as int;
    let b = output_reserve as int;
    let x = input_amount as int;
    let yi = y as int;
    assert(swap_numerator(output_reserve, input_amount) == 997 * x * b) by (nonlinear_arith)
        requires
            swap_numerator(output_reserve, input_amount) == effective_input(input_amount) * b,
            effective_input(input_amount) == 997 * x,
    ;
    let n2 = swap_numerator(forth_reserve, y) as int;
    let d2 = swap_denominator(back_reserve, y) as int;
    assert(n2 == 997 * yi * (a + x)) by (nonlinear_arith)
        requires
            n2 == effective_input(y) * (a + x),
            effective_input(y) == 997 * yi,
    ;
    assert(d2 == 1000 * (b - yi) + 997 * yi);
    assert(n2 < d2 * x) by (nonlinear_arith)
        requires
            n2 == 997 * yi * (a + x),
            d2 == 1000 * (b - yi) + 997 * yi,
            yi * (1000 * a + 997 * x) <= 997 * x * b,
            a > 0,
            b > 0,
            x >= 0,
            yi > 0,
    ;
    lemma_multiply_divide_lt(n2, d2, x);
}

} // verus!
