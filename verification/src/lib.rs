//! A two-asset constant-product market maker: the pricing rule with its
//! 0.3% fee, the bookkeeping of the two reserves, and the proofs that no
//! run of operations takes value out of the pool.
//!
//! The library moves no assets itself. `deposit` and `swap` accept or
//! refuse an operation and, for an accepted one, hand back a `Settlement`:
//! the transfers that the custody layer has to carry out and the reserves
//! that the pool records afterwards. The host carries the transfers out and
//! reports back through `DexAccount::settle`, which records the reserves if
//! custody agreed and leaves the pool untouched if it did not.

pub mod address;
pub mod custody;
pub mod error;
pub mod instructions;
pub mod laws;
pub mod pricing;
pub mod state;

pub use address::Address;
pub use custody::{Settlement, Transfer};
pub use error::{CustodyError, DexError};
pub use instructions::{deposit, initialize, swap, Deposit, Initialize, Swap};
pub use pricing::{calculate_swap_out, check_liquidity, FEE_DENOMINATOR, FEE_NUMERATOR};
pub use state::{DexAccount, Direction};
