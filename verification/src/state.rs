use crate::address::Address;
use crate::custody::Settlement;
use crate::error::{CustodyError, DexError};
use crate::pricing::{liquidity_verdict, quote};
use vstd::prelude::*;
use vstd::std_specs::convert::FromSpec;

verus! {

/// Which of the two assets a swap pays in.
#[derive(Clone, Copy, Debug, PartialEq, Eq, Structural)]
pub enum Direction {
    /// Asset A in, asset B out.
    AtoB,
    /// Asset B in, asset A out.
    BtoA,
}

impl Direction {
    /// The direction that a one-byte code stands for: 0 is A to B, anything
    /// else is B to A.
    pub open spec fn of(code: u8) -> Direction {
        if code == 0 {
            Direction::AtoB
        } else {
            Direction::BtoA
        }
    }

    /// The swap the other way.
    pub open spec fn reverse(self) -> Direction {
        match self {
            Direction::AtoB => Direction::BtoA,
            Direction::BtoA => Direction::AtoB,
        }
    }

    pub fn from_u8(code: u8) -> (r: Direction)
        ensures
            r == Direction::of(code),
    {
        if code == 0 {
            Direction::AtoB
        } else {
            Direction::BtoA
        }
    }
}

/// The record of one pool: the two assets it trades, fixed when the pool is
/// made, and how many units of each it holds.
#[derive(Clone, Copy, Debug, PartialEq, Eq)]
pub struct DexAccount {
    pub token_a: Address,
    pub token_b: Address,
    pub token_a_reserve: u64,
    pub token_b_reserve: u64,
}

impl DexAccount {
    /// A pool trades two different assets.
    pub open spec fn well_formed(self) -> bool {
        self.token_a != self.token_b
    }

    /// The quantity that swaps may only raise.
    pub open spec fn product(self) -> nat {
        (self.token_a_reserve as nat) * (self.token_b_reserve as nat)
    }

    /// The reserve that a swap in `direction` pays into.
    pub open spec fn input_reserve(self, direction: Direction) -> u64 {
        match direction {
            Direction::AtoB => self.token_a_reserve,
            Direction::BtoA => self.token_b_reserve,
        }
    }

    /// The reserve that a swap in `direction` is paid out of.
    pub open spec fn output_reserve(self, direction: Direction) -> u64 {
        match direction {
            Direction::AtoB => self.token_b_reserve,
            Direction::BtoA => self.token_a_reserve,
        }
    }

    /// The asset that a swap in `direction` pays in.
    pub open spec fn input_asset(self, direction: Direction) -> Address {
        match direction {
            Direction::AtoB => self.token_a,
            Direction::BtoA => self.token_b,
        }
    }

    /// The asset that a swap in `direction` pays out.
    pub open spec fn output_asset(self, direction: Direction) -> Address {
        match direction {
            Direction::AtoB => self.token_b,
            Direction::BtoA => self.token_a,
        }
    }

    /// The same pool holding the given reserves.
    pub open spec fn with_reserves(self, token_a_reserve: u64, token_b_reserve: u64) -> DexAccount {
        DexAccount { token_a_reserve, token_b_reserve, ..self }
    }

    /// The same pool with `input` on the side that a swap in `direction`
    /// pays into and `output` on the side it is paid out of.
    pub open spec fn with_sides(self, direction: Direction, input: u64, output: u64) -> DexAccount {
        match direction {
            Direction::AtoB => self.with_reserves(input, output),
            Direction::BtoA => self.with_reserves(output, input),
        }
    }

    /// Whether a deposit of the two amounts is accepted, and the pool after
    /// it: each reserve raised by its amount. Any pair of amounts is
    /// accepted as long as both sums can still be written down.
    pub open spec fn deposited(self, token_a_amount: u64, token_b_amount: u64) -> Result<
        DexAccount,
        DexError,
    > {
        if self.token_a_reserve + token_a_amount > u64::MAX || self.token_b_reserve
            + token_b_amount > u64::MAX {
            Err(DexError::ArithmeticOverflow)
        } else {
            Ok(
                self.with_reserves(
                    (self.token_a_reserve + token_a_amount) as u64,
                    (self.token_b_reserve + token_b_amount) as u64,
                ),
            )
        }
    }

    /// Whether a swap of `input_amount` in `direction` is accepted, and if
    /// so the pool after it together with the amount paid out.
    ///
    /// The price is quoted at the present reserves. A payout of nothing, or
    /// one that would not leave the paying reserve strictly positive, is
    /// refused; so is an input that the receiving reserve cannot hold.
    pub open spec fn swapped(self, input_amount: u64, direction: Direction) -> Result<
        (DexAccount, u64),
        DexError,
    > {
        let input_reserve = self.input_reserve(direction);
        let output_reserve = self.output_reserve(direction);
        match quote(input_reserve, output_reserve, input_amount) {
            Err(e) => Err(e),
            Ok(amount_out) => {
                if liquidity_verdict(amount_out, output_reserve) is Err {
                    Err(DexError::InsufficientLiquidity)
                } else if input_reserve + input_amount > u64::MAX {
                    Err(DexError::ArithmeticOverflow)
                } else {
                    Ok(
                        (
                            self.with_sides(
                                direction,
                                (input_reserve + input_amount) as u64,
                                (output_reserve - amount_out) as u64,
                            ),
                            amount_out,
                        ),
                    )
                }
            },
        }
    }

    /// The pool once `settlement` has taken effect.
    pub open spec fn settled(self, settlement: Settlement) -> DexAccount {
        self.with_reserves(settlement.token_a_reserve, settlement.token_b_reserve)
    }

    /// The pool once custody has answered for `settlement`: settled if both
    /// transfers went through, untouched if custody refused.
    pub open spec fn after_custody(
        self,
        settlement: Settlement,
        custody: Result<(), CustodyError>,
    ) -> DexAccount {
        match custody {
            Ok(_) => self.settled(settlement),
            Err(_) => self,
        }
    }

    /// What `settle` answers: a refusal by custody, under its own name.
    pub open spec fn settle_result(custody: Result<(), CustodyError>) -> Result<(), DexError> {
        match custody {
            Ok(_) => Ok(()),
            Err(e) => Err(DexError::from_spec(e)),
        }
    }

    /// Closes an accepted operation once custody has answered.
    ///
    /// If both transfers went through, the pool takes the reserves that the
    /// settlement names. If custody refused, the pool is left as it was and
    /// the refusal is handed on under its own name.
    pub fn settle(&mut self, settlement: &Settlement, custody: Result<(), CustodyError>) -> (r:
        Result<(), DexError>)
        ensures
            r == Self::settle_result(custody),
            *final(self) == old(self).after_custody(*settlement, custody),
            old(self).well_formed() ==> final(self).well_formed(),
    {
        match custody {
            Ok(()) => {
                self.token_a_reserve = settlement.token_a_reserve;
                self.token_b_reserve = settlement.token_b_reserve;
                Ok(())
            },
            Err(e) => Err(DexError::from(e)),
        }
    }
}

} // verus!
