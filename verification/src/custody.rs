use crate::address::Address;
use vstd::prelude::*;

verus! {

/// One request to the custody layer: move `amount` units of `asset` from
/// the account `from` to the account `to`, on the word of `authority`.
///
/// The library only writes such requests. Carrying them out, and refusing
/// them, is the custody layer's part.
#[derive(Clone, Copy, Debug, PartialEq, Eq)]
pub struct Transfer {
    pub asset: Address,
    pub from: Address,
    pub to: Address,
    pub authority: Address,
    pub amount: u64,
}

/// An accepted operation, before it takes effect: the two transfers that
/// custody has to carry out, in this order, and the reserves that the pool
/// records once both have gone through.
#[derive(Clone, Copy, Debug, PartialEq, Eq)]
pub struct Settlement {
    pub first: Transfer,
    pub second: Transfer,
    pub token_a_reserve: u64,
    pub token_b_reserve: u64,
}

impl Settlement {
    /// How many units of `asset` the two transfers bring into the custody
    /// account `account`, counting what they take out of it as negative.
    pub open spec fn net_flow(self, asset: Address, account: Address) -> int {
        flow(self.first, asset, account) + flow(self.second, asset, account)
    }
}

/// What one transfer adds to the balance that `account` holds of `asset`.
pub open spec fn flow(t: Transfer, asset: Address, account: Address) -> int {
    if t.asset != asset {
        0
    } else {
        (if t.to == account {
            t.amount as int
        } else {
            0
        }) - (if t.from == account {
            t.amount as int
        } else {
            0
        })
    }
}

} // verus!
