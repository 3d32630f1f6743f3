//! A two-asset constant-product liquidity pool: the pricing curve, the pool's
//! asset bookkeeping and the step-by-step protocol of its operations.
//!
//! The pool moves nothing itself. It decides what is to be asked of the token
//! services, one action at a time, and is told how each action went.

pub mod accounting;
pub mod curve;
pub mod deploy;
pub mod error;
pub mod identity;
pub mod operation;
pub mod pool;

pub use crate::curve::{compute_swap, Balance};
pub use crate::deploy::LpDeployment;
pub use crate::error::Error;
pub use crate::identity::{AccountId, CodeHash};
pub use crate::operation::{Action, Event, Operation, TransferError};
pub use crate::pool::{Asset, BalanceQuery, Pool};
