//! The recoverable failures of pool operations.

use vstd::prelude::*;

verus! {

/// Why a pool operation was refused or abandoned.
#[derive(Clone, Copy, Debug, PartialEq, Eq, Structural)]
pub enum Error {
    /// The asset offered is neither of the two the pool trades.
    UnknownAsset,
    /// A balance, an allowance or a reserve is too small for the operation.
    InsufficientBalance,
    /// An intermediate quantity of the pricing curve does not fit a balance.
    ArithmeticOverflow,
    /// The token service refused a transfer for another reason.
    TransferFailed,
}

} // verus!
