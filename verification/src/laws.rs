use crate::error::DexError;
use crate::pricing::{
    lemma_fee_terms, lemma_output_below_reserve, lemma_output_rounds_down, lemma_round_trip_loses,
    lemma_swap_grows_product, lemma_zero_input_pays_nothing, quote, swap_numerator, swap_output,
};
use crate::state::{DexAccount, Direction};
use vstd::prelude::*;

verus! {

/// One call on a pool, as far as its reserves go.
pub enum Operation {
    Deposit { token_a_amount: u64, token_b_amount: u64 },
    Swap { input_amount: u64, direction: Direction },
}

/// The pool after `op`: changed as the operation says if it is accepted,
/// left as it was if it is refused.
pub open spec fn apply(pool: DexAccount, op: Operation) -> DexAccount {
    match op {
        Operation::Deposit { token_a_amount, token_b_amount } => match pool.deposited(
            token_a_amount,
            token_b_amount,
        ) {
            Ok(after) => after,
            Err(_) => pool,
        },
        Operation::Swap { input_amount, direction } => match pool.swapped(input_amount, direction) {
            Ok((after, _)) => after,
            Err(_) => pool,
        },
    }
}

/// The pool after the operations of `ops`, one after the other.
pub open spec fn apply_all(pool: DexAccount, ops: Seq<Operation>) -> DexAccount
    decreases ops.len(),
{
    if ops.len() == 0 {
        pool
    } else {
        apply(apply_all(pool, ops.drop_last()), ops.last())
    }
}

/// An accepted swap pays out the constant-product price, which is more
/// than nothing and less than the whole paying reserve; it adds the input
/// to one reserve, takes the payout from the other, and leaves the pair of
/// assets alone.
pub proof fn lemma_accepted_swap(pool: DexAccount, input_amount: u64, direction: Direction)
    requires
        pool.swapped(input_amount, direction) is Ok,
    ensures
        ({
            let (after, amount_out) = pool.swapped(input_amount, direction)->Ok_0;
            &&& input_amount > 0
            &&& amount_out == swap_output(
                pool.input_reserve(direction) as nat,
                pool.output_reserve(direction) as nat,
                input_amount as nat,
            )
            &&& 0 < amount_out < pool.output_reserve(direction)
            &&& after.input_reserve(direction) == pool.input_reserve(direction) + input_amount
            &&& after.output_reserve(direction) == pool.output_reserve(direction) - amount_out
            &&& after.token_a == pool.token_a
            &&& after.token_b == pool.token_b
        }),
{
    let a = pool.input_reserve(direction) as nat;
    let b = pool.output_reserve(direction) as nat;
    let x = input_amount as nat;
    lemma_output_below_reserve(a, b, x);
    if x == 0 {
        lemma_zero_input_pays_nothing(a, b);
    }
}

/// The test against paying out the whole reserve never decides anything
/// by itself: a price that could be computed is refused for want of
/// liquidity exactly when it is zero.
pub proof fn lemma_only_a_zero_price_lacks_liquidity(
    pool: DexAccount,
    input_amount: u64,
    direction: Direction,
)
    ensures
        pool.swapped(input_amount, direction) == Err::<(DexAccount, u64), DexError>(
            DexError::InsufficientLiquidity,
        ) <==> {
            &&& pool.input_reserve(direction) > 0
            &&& pool.output_reserve(direction) > 0
            &&& swap_numerator(pool.output_reserve(direction) as nat, input_amount as nat)
                <= u128::MAX
            &&& swap_output(
                pool.input_reserve(direction) as nat,
                pool.output_reserve(direction) as nat,
                input_amount as nat,
            ) == 0
        },
{
    let a = pool.input_reserve(direction) as nat;
    let b = pool.output_reserve(direction) as nat;
    if a > 0 && b > 0 {
        lemma_output_below_reserve(a, b, input_amount as nat);
    }
}

/// An accepted swap strictly raises the product of the reserves.
pub proof fn lemma_swap_raises_product(pool: DexAccount, input_amount: u64, direction: Direction)
    requires
        pool.swapped(input_amount, direction) is Ok,
    ensures
        (pool.swapped(input_amount, direction)->Ok_0).0.product() > pool.product(),
{
    lemma_accepted_swap(pool, input_amount, direction);
    let (after, amount_out) = pool.swapped(input_amount, direction)->Ok_0;
    let a = pool.input_reserve(direction) as nat;
    let b = pool.output_reserve(direction) as nat;
    let x = input_amount as nat;
    lemma_swap_grows_product(a, b, x);
    let a2 = after.input_reserve(direction) as nat;
    let b2 = after.output_reserve(direction) as nat;
    assert(a2 * b2 > a * b);
    match direction {
        Direction::AtoB => {},
        Direction::BtoA => {
            assert(b2 * a2 == a2 * b2 && b * a == a * b) by (nonlinear_arith);
        },
    }
}

/// An accepted swap leaves both reserves strictly positive: no swap ever
/// empties a side of the pool.
pub proof fn lemma_swap_keeps_reserves_positive(
    pool: DexAccount,
    input_amount: u64,
    direction: Direction,
)
    requires
        pool.swapped(input_amount, direction) is Ok,
    ensures
        (pool.swapped(input_amount, direction)->Ok_0).0.token_a_reserve > 0,
        (pool.swapped(input_amount, direction)->Ok_0).0.token_b_reserve > 0,
{
    lemma_accepted_swap(pool, input_amount, direction);
}

/// An accepted deposit never lowers the product of the reserves.
pub proof fn lemma_deposit_keeps_product(
    pool: DexAccount,
    token_a_amount: u64,
    token_b_amount: u64,
)
    requires
        pool.deposited(token_a_amount, token_b_amount) is Ok,
    ensures
        pool.deposited(token_a_amount, token_b_amount)->Ok_0.product() >= pool.product(),
{
    let a = pool.token_a_reserve as nat;
    let b = pool.token_b_reserve as nat;
    let x = token_a_amount as nat;
    let y = token_b_amount as nat;
    assert((a + x) * (b + y) >= a * b) by (nonlinear_arith);
}

/// Whatever is asked of a pool, in whatever order, the product of its
/// reserves never falls.
pub proof fn lemma_product_never_falls(pool: DexAccount, ops: Seq<Operation>)
    ensures
        apply_all(pool, ops).product() >= pool.product(),
    decreases ops.len(),
{
    if ops.len() > 0 {
        lemma_product_never_falls(pool, ops.drop_last());
        let before = apply_all(pool, ops.drop_last());
        match ops.last() {
            Operation::Deposit { token_a_amount, token_b_amount } => {
                if before.deposited(token_a_amount, token_b_amount) is Ok {
                    lemma_deposit_keeps_product(before, token_a_amount, token_b_amount);
                }
            },
            Operation::Swap { input_amount, direction } => {
                if before.swapped(input_amount, direction) is Ok {
                    lemma_swap_raises_product(before, input_amount, direction);
                }
            },
        }
    }
}

/// Along any run of operations the product after each one is at least the
/// product before it, and strictly more after each accepted swap.
pub proof fn lemma_each_step_keeps_product(pool: DexAccount, ops: Seq<Operation>, i: int)
    requires
        0 <= i < ops.len(),
    ensures
        apply_all(pool, ops.take(i + 1)) == apply(apply_all(pool, ops.take(i)), ops[i]),
        apply_all(pool, ops.take(i + 1)).product() >= apply_all(pool, ops.take(i)).product(),
        ops[i] matches Operation::Swap { input_amount, direction } && apply_all(
            pool,
            ops.take(i),
        ).swapped(input_amount, direction) is Ok ==> apply_all(pool, ops.take(i + 1)).product()
            > apply_all(pool, ops.take(i)).product(),
{
    let upto = ops.take(i + 1);
    assert(upto.drop_last() =~= ops.take(i));
    assert(upto.last() == ops[i]);
    let before = apply_all(pool, ops.take(i));
    match ops[i] {
        Operation::Deposit { token_a_amount, token_b_amount } => {
            if before.deposited(token_a_amount, token_b_amount) is Ok {
                lemma_deposit_keeps_product(before, token_a_amount, token_b_amount);
            }
        },
        Operation::Swap { input_amount, direction } => {
            if before.swapped(input_amount, direction) is Ok {
                lemma_swap_raises_product(before, input_amount, direction);
            }
        },
    }
}

/// A reserve never goes below zero, and more: a pool with something on
/// both sides keeps something on both sides, whatever is asked of it.
pub proof fn lemma_reserves_stay_positive(pool: DexAccount, ops: Seq<Operation>)
    requires
        pool.token_a_reserve > 0,
        pool.token_b_reserve > 0,
    ensures
        apply_all(pool, ops).token_a_reserve > 0,
        apply_all(pool, ops).token_b_reserve > 0,
    decreases ops.len(),
{
    if ops.len() > 0 {
        lemma_reserves_stay_positive(pool, ops.drop_last());
        let before = apply_all(pool, ops.drop_last());
        match ops.last() {
            Operation::Deposit { token_a_amount, token_b_amount } => {},
            Operation::Swap { input_amount, direction } => {
                if before.swapped(input_amount, direction) is Ok {
                    lemma_swap_keeps_reserves_positive(before, input_amount, direction);
                }
            },
        }
    }
}

/// The pair of assets is fixed for the life of the pool, so a pool of two
/// different assets stays one.
pub proof fn lemma_assets_never_change(pool: DexAccount, ops: Seq<Operation>)
    ensures
        apply_all(pool, ops).token_a == pool.token_a,
        apply_all(pool, ops).token_b == pool.token_b,
        pool.well_formed() ==> apply_all(pool, ops).well_formed(),
    decreases ops.len(),
{
    if ops.len() > 0 {
        lemma_assets_never_change(pool, ops.drop_last());
    }
}

/// Trading there and back loses to the fee: the payout of an accepted swap,
/// offered straight back to the pool, is priced strictly below what was
/// first paid in.
pub proof fn lemma_round_trip_returns_less(
    pool: DexAccount,
    input_amount: u64,
    direction: Direction,
)
    requires
        pool.swapped(input_amount, direction) is Ok,
    ensures
        ({
            let (after, amount_out) = pool.swapped(input_amount, direction)->Ok_0;
            let back = quote(
                after.input_reserve(direction.reverse()),
                after.output_reserve(direction.reverse()),
                amount_out,
            );
            &&& back is Ok
            &&& back->Ok_0 < input_amount
            &&& after.swapped(amount_out, direction.reverse()) matches Ok((_, returned))
                ==> returned < input_amount
        }),
{
    lemma_accepted_swap(pool, input_amount, direction);
    let (after, amount_out) = pool.swapped(input_amount, direction)->Ok_0;
    let a = pool.input_reserve(direction) as nat;
    let b = pool.output_reserve(direction) as nat;
    let x = input_amount as nat;
    lemma_round_trip_loses(a, b, x);
    let back_in = after.input_reserve(direction.reverse());
    let back_out = after.output_reserve(direction.reverse());
    assert(back_in == after.output_reserve(direction));
    assert(back_out == after.input_reserve(direction));
    assert(swap_output(back_in as nat, back_out as nat, amount_out as nat) < x);
    // The way back is priced out of what the way there put in, so its
    // numerator is no larger than the one that was just computed.
    lemma_output_rounds_down(a, b, x);
    lemma_fee_terms(a, x);
    lemma_fee_terms(back_in as nat, amount_out as nat);
    let there = swap_numerator(b, x);
    let back = swap_numerator(back_out as nat, amount_out as nat);
    let y = amount_out as nat;
    assert(back <= there) by (nonlinear_arith)
        requires
            back == (997 * y) * (a + x),
            y * (1000 * a + 997 * x) <= there,
    ;
}

} // verus!
