//! The protocol of the pool's operations that move assets.
//!
//! The pool decides; the token services and the host move and report. An operation
//! in progress is an [`Operation`]: it names the one [`Action`] that is pending, and
//! [`Operation::step`] takes the [`Event`] that answers that action to the next
//! state. The embedder performs the pending action, hands back its answer, and
//! repeats until the operation is finished.

use crate::curve::{compute_swap, swap_quote, Balance};
use crate::error::Error;
use crate::pool::Asset;
use vstd::prelude::*;

verus! {

/// Why a token service refused a transfer.
#[derive(Clone, Copy, Debug, PartialEq, Eq, Structural)]
pub enum TransferError {
    /// The owner's balance is below the amount.
    InsufficientBalance,
    /// The owner has authorised less than the amount.
    InsufficientAllowance,
    /// Any other refusal.
    Other,
}

impl TransferError {
    /// The pool's error for a refused pull from the caller.
    pub open spec fn refusal_spec(self) -> Error {
        match self {
            TransferError::InsufficientBalance => Error::InsufficientBalance,
            TransferError::InsufficientAllowance => Error::InsufficientBalance,
            TransferError::Other => Error::TransferFailed,
        }
    }

    /// The pool's error for a refused pull from the caller: a balance or an allowance
    /// that is too small is reported as such, anything else as a failed transfer.
    #[verifier::when_used_as_spec(refusal_spec)]
    pub fn refusal(self) -> (error: Error)
        ensures
            error == self.refusal_spec(),
    {
        match self {
            TransferError::InsufficientBalance => Error::InsufficientBalance,
            TransferError::InsufficientAllowance => Error::InsufficientBalance,
            TransferError::Other => Error::TransferFailed,
        }
    }
}

/// What the embedder is to do next on behalf of an operation.
#[derive(Clone, Copy, Debug, PartialEq, Eq)]
pub enum Action {
    /// Read the caller's balances of both assets.
    ReadCallerBalances,
    /// Move `amount` of `asset` from the caller to the pool, on the caller's
    /// authorisation.
    Pull { asset: Asset, amount: Balance },
    /// Read the total supplies of the offer and of the ask asset.
    ReadSupplies { offer: Asset, ask: Asset },
    /// Move `amount` of `asset` from the pool to the caller.
    Pay { asset: Asset, amount: Balance },
    /// Nothing more: report `outcome` to the caller.
    Finish { outcome: Result<(), Error> },
}

/// The answer to an action.
#[derive(Clone, Copy, Debug, PartialEq, Eq)]
pub enum Event {
    /// The caller's balances of the first and of the second asset.
    CallerBalances { balance_0: Balance, balance_1: Balance },
    /// How a pull or a payment went.
    Transferred { outcome: Result<(), TransferError> },
    /// The total supplies of the offer and of the ask asset.
    Supplies { offer_supply: Balance, ask_supply: Balance },
}

/// An operation in progress, or finished.
#[derive(Clone, Copy, Debug, PartialEq, Eq)]
pub enum Operation {
    /// Liquidity is offered; the caller's balances are being read.
    ProvideCheck { value0: Balance, value1: Balance },
    /// The first asset is being pulled.
    ProvideFirst { value0: Balance, value1: Balance },
    /// The first asset was pulled; the second is being pulled.
    ProvideSecond { value0: Balance, value1: Balance },
    /// The offer of a swap is being pulled.
    SwapDeposit { offer: Asset, value: Balance },
    /// The offer was pulled; the supplies are being read.
    SwapQuote { offer: Asset, value: Balance },
    /// The output was computed and is being paid.
    SwapPayout { offer: Asset, value: Balance, amount: Balance },
    /// The operation failed with `error` after `amount` of `asset` was pulled; that
    /// amount is being paid back.
    Refund { asset: Asset, amount: Balance, error: Error },
    /// Nothing is pending.
    Finished { outcome: Result<(), Error> },
}

impl Operation {
    /// The action that is pending in this state.
    pub open spec fn pending(self) -> Action {
        match self {
            Operation::ProvideCheck { .. } => Action::ReadCallerBalances,
            Operation::ProvideFirst { value0, .. } => Action::Pull {
                asset: Asset::Token0,
                amount: value0,
            },
            Operation::ProvideSecond { value1, .. } => Action::Pull {
                asset: Asset::Token1,
                amount: value1,
            },
            Operation::SwapDeposit { offer, value } => Action::Pull { asset: offer, amount: value },
            Operation::SwapQuote { offer, .. } => Action::ReadSupplies { offer, ask: offer.other() },
            Operation::SwapPayout { offer, amount, .. } => Action::Pay {
                asset: offer.other(),
                amount,
            },
            Operation::Refund { asset, amount, .. } => Action::Pay { asset, amount },
            Operation::Finished { outcome } => Action::Finish { outcome },
        }
    }

    /// The state that `event` leads to, or `None` where `event` does not answer the
    /// pending action.
    pub open spec fn next(self, event: Event) -> Option<Operation> {
        match (self, event) {
            (
                Operation::ProvideCheck { value0, value1 },
                Event::CallerBalances { balance_0, balance_1 },
            ) => Some(
                if balance_0 < value0 || balance_1 < value1 {
                    Operation::Finished { outcome: Err(Error::InsufficientBalance) }
                } else {
                    Operation::ProvideFirst { value0, value1 }
                },
            ),
            (Operation::ProvideFirst { value0, value1 }, Event::Transferred { outcome }) => Some(
                match outcome {
                    Ok(_) => Operation::ProvideSecond { value0, value1 },
                    Err(e) => Operation::Finished { outcome: Err(e.refusal()) },
                },
            ),
            (Operation::ProvideSecond { value0, value1 }, Event::Transferred { outcome }) => Some(
                match outcome {
                    Ok(_) => Operation::Finished { outcome: Ok(()) },
                    Err(e) => Operation::Refund {
                        asset: Asset::Token0,
                        amount: value0,
                        error: e.refusal(),
                    },
                },
            ),
            (Operation::SwapDeposit { offer, value }, Event::Transferred { outcome }) => Some(
                match outcome {
                    Ok(_) => Operation::SwapQuote { offer, value },
                    Err(e) => Operation::Finished { outcome: Err(e.refusal()) },
                },
            ),
            (
                Operation::SwapQuote { offer, value },
                Event::Supplies { offer_supply, ask_supply },
            ) => Some(
                match swap_quote(ask_supply, offer_supply, value) {
                    Ok(amount) => Operation::SwapPayout { offer, value, amount },
                    Err(error) => Operation::Refund { asset: offer, amount: value, error },
                },
            ),
            (Operation::SwapPayout { offer, value, amount }, Event::Transferred { outcome }) => Some(
                match outcome {
                    Ok(_) => Operation::Finished { outcome: Ok(()) },
                    Err(_) => Operation::Refund {
                        asset: offer,
                        amount: value,
                        error: Error::TransferFailed,
                    },
                },
            ),
            (Operation::Refund { error, .. }, Event::Transferred { .. }) => Some(
                Operation::Finished { outcome: Err(error) },
            ),
            _ => None,
        }
    }

    /// The action that is pending: what the embedder is to do before the next step.
    pub fn action(&self) -> (action: Action)
        ensures
            action == self.pending(),
    {
        match *self {
            Operation::ProvideCheck { .. } => Action::ReadCallerBalances,
            Operation::ProvideFirst { value0, .. } => Action::Pull {
                asset: Asset::Token0,
                amount: value0,
            },
            Operation::ProvideSecond { value1, .. } => Action::Pull {
                asset: Asset::Token1,
                amount: value1,
            },
            Operation::SwapDeposit { offer, value } => Action::Pull { asset: offer, amount: value },
            Operation::SwapQuote { offer, .. } => Action::ReadSupplies { offer, ask: offer.other() },
            Operation::SwapPayout { offer, amount, .. } => Action::Pay {
                asset: offer.other(),
                amount,
            },
            Operation::Refund { asset, amount, .. } => Action::Pay { asset, amount },
            Operation::Finished { outcome } => Action::Finish { outcome },
        }
    }

    /// How the operation ended, once it has.
    pub fn outcome(&self) -> (outcome: Option<Result<(), Error>>)
        ensures
            outcome == match *self {
                Operation::Finished { outcome } => Some(outcome),
                _ => None,
            },
    {
        match *self {
            Operation::Finished { outcome } => Some(outcome),
            _ => None,
        }
    }

    /// Takes the answer to the pending action and moves to the next state; `None`
    /// where `event` is no answer to that action, and so for every event once the
    /// operation is finished.
    pub fn step(self, event: Event) -> (after: Option<Operation>)
        ensures
            after == self.next(event),
    {
        match self {
            Operation::ProvideCheck { value0, value1 } => match event {
                Event::CallerBalances { balance_0, balance_1 } => {
                    if balance_0 < value0 || balance_1 < value1 {
                        Some(Operation::Finished { outcome: Err(Error::InsufficientBalance) })
                    } else {
                        Some(Operation::ProvideFirst { value0, value1 })
                    }
                },
                _ => None,
            },
            Operation::ProvideFirst { value0, value1 } => match event {
                Event::Transferred { outcome: Ok(_) } => Some(
                    Operation::ProvideSecond { value0, value1 },
                ),
                Event::Transferred { outcome: Err(e) } => Some(
                    Operation::Finished { outcome: Err(e.refusal()) },
                ),
                _ => None,
            },
            Operation::ProvideSecond { value0, value1 } => match event {
                Event::Transferred { outcome: Ok(_) } => Some(Operation::Finished { outcome: Ok(()) }),
                Event::Transferred { outcome: Err(e) } => Some(
                    Operation::Refund { asset: Asset::Token0, amount: value0, error: e.refusal() },
                ),
                _ => None,
            },
            Operation::SwapDeposit { offer, value } => match event {
                Event::Transferred { outcome: Ok(_) } => Some(Operation::SwapQuote { offer, value }),
                Event::Transferred { outcome: Err(e) } => Some(
                    Operation::Finished { outcome: Err(e.refusal()) },
                ),
                _ => None,
            },
            Operation::SwapQuote { offer, value } => match event {
                Event::Supplies { offer_supply, ask_supply } => {
                    match compute_swap(ask_supply, offer_supply, value) {
                        Ok(return_amount) => Some(
                            Operation::SwapPayout { offer, value, amount: return_amount },
                        ),
                        Err(error) => Some(Operation::Refund { asset: offer, amount: value, error }),
                    }
                },
                _ => None,
            },
            Operation::SwapPayout { offer, value, amount } => match event {
                Event::Transferred { outcome: Ok(_) } => Some(Operation::Finished { outcome: Ok(()) }),
                Event::Transferred { outcome: Err(_) } => Some(
                    Operation::Refund { asset: offer, amount: value, error: Error::TransferFailed },
                ),
                _ => None,
            },
            Operation::Refund { asset, amount, error } => match event {
                Event::Transferred { .. } => Some(Operation::Finished { outcome: Err(error) }),
                _ => None,
            },
            Operation::Finished { .. } => None,
        }
    }
}

} // verus!
