use crate::address::Address;
use crate::custody::{Settlement, Transfer};
use crate::error::{CustodyError, DexError};
use crate::laws::{
    apply, lemma_accepted_swap, lemma_deposit_keeps_product, lemma_swap_keeps_reserves_positive,
    lemma_swap_raises_product, Operation,
};
use crate::pricing::{calculate_swap_out, check_liquidity};
use crate::state::{DexAccount, Direction};
use vstd::prelude::*;

verus! {

/// The accounts that making a pool touches.
#[derive(Clone, Copy, Debug, PartialEq, Eq)]
pub struct Initialize {
    /// The record to fill in.
    pub dex_account: DexAccount,
    /// Who pays for the record. The host sees to that; nothing here reads it.
    pub initializer: Address,
}

/// The accounts that a deposit touches.
#[derive(Clone, Copy, Debug, PartialEq, Eq)]
pub struct Deposit {
    /// The pool's record.
    pub dex_account: DexAccount,
    /// The account under which custody holds the pool's units.
    pub dex_account_address: Address,
    /// The depositor, who controls the two accounts below.
    pub initializer: Address,
    /// Where the depositor's units of asset A come from.
    pub token_a_account: Address,
    /// Where the depositor's units of asset B come from.
    pub token_b_account: Address,
}

/// The accounts that a swap touches.
#[derive(Clone, Copy, Debug, PartialEq, Eq)]
pub struct Swap {
    /// The pool's record.
    pub dex_account: DexAccount,
    /// The account under which custody holds the pool's units.
    pub dex_account_address: Address,
    /// The trader's account for the asset paid in. Control of it is the
    /// authority for both transfers of the swap.
    pub input_token_account: Address,
    /// The trader's account for the asset paid out.
    pub output_token_account: Address,
}

impl Deposit {
    /// The request that brings `amount` units of asset A from the depositor
    /// into the pool, on the depositor's word.
    pub open spec fn token_a_transfer(self, amount: u64) -> Transfer {
        Transfer {
            asset: self.dex_account.token_a,
            from: self.token_a_account,
            to: self.dex_account_address,
            authority: self.initializer,
            amount,
        }
    }

    /// The request that brings `amount` units of asset B from the depositor
    /// into the pool, on the depositor's word.
    pub open spec fn token_b_transfer(self, amount: u64) -> Transfer {
        Transfer {
            asset: self.dex_account.token_b,
            from: self.token_b_account,
            to: self.dex_account_address,
            authority: self.initializer,
            amount,
        }
    }

    /// Writes the request for `amount` units of asset A.
    pub fn transfer_token_a_context(&self, amount: u64) -> (r: Transfer)
        ensures
            r == self.token_a_transfer(amount),
    {
        Transfer {
            asset: self.dex_account.token_a,
            from: self.token_a_account,
            to: self.dex_account_address,
            authority: self.initializer,
            amount,
        }
    }

    /// Writes the request for `amount` units of asset B.
    pub fn transfer_token_b_context(&self, amount: u64) -> (r: Transfer)
        ensures
            r == self.token_b_transfer(amount),
    {
        Transfer {
            asset: self.dex_account.token_b,
            from: self.token_b_account,
            to: self.dex_account_address,
            authority: self.initializer,
            amount,
        }
    }
}

impl Swap {
    /// The request that brings `amount` units of the asset paid in from the
    /// trader into the pool.
    pub open spec fn input_transfer(self, direction: Direction, amount: u64) -> Transfer {
        Transfer {
            asset: self.dex_account.input_asset(direction),
            from: self.input_token_account,
            to: self.dex_account_address,
            authority: self.input_token_account,
            amount,
        }
    }

    /// The request that pays `amount` units of the asset paid out from the
    /// pool to the trader. Its authority is the trader's input account, as
    /// for the transfer in: the trader needs no say over the receiving
    /// account beyond owning it.
    pub open spec fn output_transfer(self, direction: Direction, amount: u64) -> Transfer {
        Transfer {
            asset: self.dex_account.output_asset(direction),
            from: self.dex_account_address,
            to: self.output_token_account,
            authority: self.input_token_account,
            amount,
        }
    }

    /// Writes the request for the `amount` units paid in.
    pub fn transfer_input_token_context(&self, direction: Direction, amount: u64) -> (r: Transfer)
        ensures
            r == self.input_transfer(direction, amount),
    {
        let asset = match direction {
            Direction::AtoB => self.dex_account.token_a,
            Direction::BtoA => self.dex_account.token_b,
        };
        Transfer {
            asset,
            from: self.input_token_account,
            to: self.dex_account_address,
            authority: self.input_token_account,
            amount,
        }
    }

    /// Writes the request for the `amount` units paid out.
    pub fn transfer_output_token_context(&self, direction: Direction, amount: u64) -> (r: Transfer)
        ensures
            r == self.output_transfer(direction, amount),
    {
        let asset = match direction {
            Direction::AtoB => self.dex_account.token_b,
            Direction::BtoA => self.dex_account.token_a,
        };
        Transfer {
            asset,
            from: self.dex_account_address,
            to: self.output_token_account,
            authority: self.input_token_account,
            amount,
        }
    }
}

/// Makes the pool for the pair `token_a`, `token_b`, holding nothing.
///
/// The two assets must differ. If they do not, the record is left as it
/// was.
pub fn initialize(ctx: &mut Initialize, token_a: Address, token_b: Address) -> (r: Result<
    (),
    DexError,
>)
    ensures
        token_a == token_b ==> {
            &&& r == Err::<(), DexError>(DexError::InvalidAssetPair)
            &&& *final(ctx) == *old(ctx)
        },
        token_a != token_b ==> {
            &&& r is Ok
            &&& final(ctx).initializer == old(ctx).initializer
            &&& final(ctx).dex_account == (DexAccount {
                token_a,
                token_b,
                token_a_reserve: 0,
                token_b_reserve: 0,
            })
            &&& final(ctx).dex_account.well_formed()
        },
{
    if token_a.same_as(&token_b) {
        return Err(DexError::InvalidAssetPair);
    }
    ctx.dex_account = DexAccount { token_a, token_b, token_a_reserve: 0, token_b_reserve: 0 };
    Ok(())
}

/// What `deposit` answers: for an accepted deposit, the two transfers into
/// the pool and the reserves after it.
pub open spec fn deposit_outcome(ctx: Deposit, token_a_amount: u64, token_b_amount: u64) -> Result<
    Settlement,
    DexError,
> {
    match ctx.dex_account.deposited(token_a_amount, token_b_amount) {
        Err(e) => Err(e),
        Ok(after) => Ok(
            Settlement {
                first: ctx.token_a_transfer(token_a_amount),
                second: ctx.token_b_transfer(token_b_amount),
                token_a_reserve: after.token_a_reserve,
                token_b_reserve: after.token_b_reserve,
            },
        ),
    }
}

/// Accepts or refuses a deposit of `token_a_amount` units of asset A and
/// `token_b_amount` units of asset B.
///
/// Any pair of amounts is accepted, zero included, in whatever ratio, as
/// long as both new reserves can still be written down. The settlement
/// moves both amounts from the depositor into the pool and raises each
/// reserve by its amount.
pub fn deposit(ctx: &Deposit, token_a_amount: u64, token_b_amount: u64) -> (r: Result<
    Settlement,
    DexError,
>)
    ensures
        r == deposit_outcome(*ctx, token_a_amount, token_b_amount),
        r matches Ok(settlement) ==> ctx.dex_account.settled(settlement).product()
            >= ctx.dex_account.product(),
{
    proof {
        if ctx.dex_account.deposited(token_a_amount, token_b_amount) is Ok {
            lemma_deposit_keeps_product(ctx.dex_account, token_a_amount, token_b_amount);
        }
    }
    let token_a_reserve: u64 = match ctx.dex_account.token_a_reserve.checked_add(token_a_amount) {
        Some(sum) => sum,
        None => {
            return Err(DexError::ArithmeticOverflow);
        },
    };
    let token_b_reserve: u64 = match ctx.dex_account.token_b_reserve.checked_add(token_b_amount) {
        Some(sum) => sum,
        None => {
            return Err(DexError::ArithmeticOverflow);
        },
    };
    Ok(
        Settlement {
            first: ctx.transfer_token_a_context(token_a_amount),
            second: ctx.transfer_token_b_context(token_b_amount),
            token_a_reserve,
            token_b_reserve,
        },
    )
}

/// What `swap` answers, by direction: for an accepted swap, the transfer
/// of the input into the pool, the transfer of the payout to the trader,
/// and the reserves after it.
pub open spec fn swap_outcome(ctx: Swap, input_amount: u64, direction: Direction) -> Result<
    Settlement,
    DexError,
> {
    match ctx.dex_account.swapped(input_amount, direction) {
        Err(e) => Err(e),
        Ok((after, amount_out)) => Ok(
            Settlement {
                first: ctx.input_transfer(direction, input_amount),
                second: ctx.output_transfer(direction, amount_out),
                token_a_reserve: after.token_a_reserve,
                token_b_reserve: after.token_b_reserve,
            },
        ),
    }
}

/// Accepts or refuses a swap of `input_amount` units; `direction` 0 pays
/// asset A in and takes asset B out, any other value the reverse.
///
/// The settlement moves `input_amount` from the trader into the pool and
/// the priced amount from the pool to the trader, and records both in the
/// reserves. It pays out something, leaves both reserves strictly positive,
/// and raises their product.
pub fn swap(ctx: &Swap, input_amount: u64, direction: u8) -> (r: Result<Settlement, DexError>)
    ensures
        r == swap_outcome(*ctx, input_amount, Direction::of(direction)),
        r matches Ok(settlement) ==> {
            &&& 0 < settlement.second.amount < ctx.dex_account.output_reserve(
                Direction::of(direction),
            )
            &&& settlement.token_a_reserve > 0
            &&& settlement.token_b_reserve > 0
            &&& ctx.dex_account.settled(settlement).product() > ctx.dex_account.product()
        },
{
    let direction = Direction::from_u8(direction);
    proof {
        if ctx.dex_account.swapped(input_amount, direction) is Ok {
            lemma_accepted_swap(ctx.dex_account, input_amount, direction);
            lemma_swap_keeps_reserves_positive(ctx.dex_account, input_amount, direction);
            lemma_swap_raises_product(ctx.dex_account, input_amount, direction);
        }
    }
    let (input_reserve, output_reserve): (u64, u64) = match direction {
        Direction::AtoB => (ctx.dex_account.token_a_reserve, ctx.dex_account.token_b_reserve),
        Direction::BtoA => (ctx.dex_account.token_b_reserve, ctx.dex_account.token_a_reserve),
    };
    let amount_out: u64 = match calculate_swap_out(input_reserve, output_reserve, input_amount) {
        Ok(amount) => amount,
        Err(e) => {
            return Err(e);
        },
    };
    match check_liquidity(amount_out, output_reserve) {
        Ok(()) => {},
        Err(e) => {
            return Err(e);
        },
    }
    let input_after: u64 = match input_reserve.checked_add(input_amount) {
        Some(sum) => sum,
        None => {
            return Err(DexError::ArithmeticOverflow);
        },
    };
    let output_after: u64 = output_reserve - amount_out;
    let (token_a_reserve, token_b_reserve): (u64, u64) = match direction {
        Direction::AtoB => (input_after, output_after),
        Direction::BtoA => (output_after, input_after),
    };
    Ok(
        Settlement {
            first: ctx.transfer_input_token_context(direction, input_amount),
            second: ctx.transfer_output_token_context(direction, amount_out),
            token_a_reserve,
            token_b_reserve,
        },
    )
}

/// What `deposit` and `settle` do between them is one step of the model:
/// an accepted deposit that custody carries out leaves the pool as `apply`
/// says, and a refused one, or one that custody refuses, leaves it as it
/// was.
pub proof fn lemma_deposit_settles_into_its_step(
    ctx: Deposit,
    token_a_amount: u64,
    token_b_amount: u64,
    custody: Result<(), CustodyError>,
)
    ensures
        match deposit_outcome(ctx, token_a_amount, token_b_amount) {
            Ok(settlement) => ctx.dex_account.after_custody(settlement, custody) == (if custody
                is Ok {
                apply(ctx.dex_account, Operation::Deposit { token_a_amount, token_b_amount })
            } else {
                ctx.dex_account
            }),
            Err(_) => apply(ctx.dex_account, Operation::Deposit { token_a_amount, token_b_amount })
                == ctx.dex_account,
        },
{
}

/// What `swap` and `settle` do between them is one step of the model: an
/// accepted swap that custody carries out leaves the pool as `apply` says,
/// and a refused one, or one that custody refuses, leaves it as it was.
pub proof fn lemma_swap_settles_into_its_step(
    ctx: Swap,
    input_amount: u64,
    direction: Direction,
    custody: Result<(), CustodyError>,
)
    ensures
        match swap_outcome(ctx, input_amount, direction) {
            Ok(settlement) => ctx.dex_account.after_custody(settlement, custody) == (if custody
                is Ok {
                apply(ctx.dex_account, Operation::Swap { input_amount, direction })
            } else {
                ctx.dex_account
            }),
            Err(_) => apply(ctx.dex_account, Operation::Swap { input_amount, direction })
                == ctx.dex_account,
        },
{
}

/// The transfers of an accepted deposit bring into the pool's custody
/// account exactly what the deposit adds to each reserve.
pub proof fn lemma_deposit_moves_what_it_records(
    ctx: Deposit,
    token_a_amount: u64,
    token_b_amount: u64,
)
    requires
        ctx.dex_account.well_formed(),
        ctx.token_a_account != ctx.dex_account_address,
        ctx.token_b_account != ctx.dex_account_address,
        deposit_outcome(ctx, token_a_amount, token_b_amount) is Ok,
    ensures
        ({
            let s: Settlement = deposit_outcome(ctx, token_a_amount, token_b_amount)->Ok_0;
            &&& s.net_flow(ctx.dex_account.token_a, ctx.dex_account_address) == s.token_a_reserve
                - ctx.dex_account.token_a_reserve
            &&& s.net_flow(ctx.dex_account.token_b, ctx.dex_account_address) == s.token_b_reserve
                - ctx.dex_account.token_b_reserve
        }),
{
}

/// The transfers of an accepted swap change what the pool's custody
/// account holds of each asset by exactly what the swap does to each
/// reserve.
pub proof fn lemma_swap_moves_what_it_records(ctx: Swap, input_amount: u64, direction: Direction)
    requires
        ctx.dex_account.well_formed(),
        ctx.input_token_account != ctx.dex_account_address,
        ctx.output_token_account != ctx.dex_account_address,
        swap_outcome(ctx, input_amount, direction) is Ok,
    ensures
        ({
            let s: Settlement = swap_outcome(ctx, input_amount, direction)->Ok_0;
            &&& s.net_flow(ctx.dex_account.token_a, ctx.dex_account_address) == s.token_a_reserve
                - ctx.dex_account.token_a_reserve
            &&& s.net_flow(ctx.dex_account.token_b, ctx.dex_account_address) == s.token_b_reserve
                - ctx.dex_account.token_b_reserve
        }),
{
    lemma_accepted_swap(ctx.dex_account, input_amount, direction);
}

} // verus!
