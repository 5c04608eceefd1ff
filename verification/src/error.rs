use vstd::prelude::*;
use vstd::std_specs::convert::FromSpecImpl;

verus! {

/// Why the custody layer refused to move units out of an account.
#[derive(Clone, Copy, Debug, PartialEq, Eq, Structural)]
pub enum CustodyError {
    /// The named authority does not control the source account.
    Unauthorized,
    /// The source account holds fewer units than were asked for.
    InsufficientFunds,
}

/// Why an operation on a pool was refused. A refused operation leaves the
/// pool exactly as it was.
#[derive(Clone, Copy, Debug, PartialEq, Eq, Structural)]
pub enum DexError {
    /// A pool was asked for with the same asset on both sides.
    InvalidAssetPair,
    /// A swap was attempted while one of the reserves is zero.
    EmptyPool,
    /// A quantity left the range of the integers that hold it.
    ArithmeticOverflow,
    /// The swap would pay out nothing, or would not leave the paying
    /// reserve strictly positive.
    InsufficientLiquidity,
    /// Reported by the custody layer: the source account is short.
    InsufficientFunds,
    /// Reported by the custody layer: the authority does not control the
    /// source account.
    Unauthorized,
}

impl From<CustodyError> for DexError {
    /// A custody failure surfaces under the same name.
    fn from(e: CustodyError) -> (r: DexError) {
        match e {
            CustodyError::Unauthorized => DexError::Unauthorized,
            CustodyError::InsufficientFunds => DexError::InsufficientFunds,
        }
    }
}

impl FromSpecImpl<CustodyError> for DexError {
    open spec fn obeys_from_spec() -> bool {
        true
    }

    open spec fn from_spec(e: CustodyError) -> DexError {
        match e {
            CustodyError::Unauthorized => DexError::Unauthorized,
            CustodyError::InsufficientFunds => DexError::InsufficientFunds,
        }
    }
}

} // verus!
