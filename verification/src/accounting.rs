//! What an operation moves, over a whole run of it.
//!
//! A run is an operation together with the answers that its pending actions
//! received, in order. The laws here say what has moved between the caller and the
//! pool by the time a run is finished.

use crate::curve::{swap_quote, Balance};
use crate::error::Error;
use crate::operation::{Action, Event, Operation};
use crate::pool::Asset;
use vstd::prelude::*;

verus! {

/// The amount of `asset` that moves from the caller to the pool when `event` answers
/// `action`; negative where it moves to the caller. Only a transfer that went
/// through moves anything.
pub open spec fn inflow(action: Action, event: Event, asset: Asset) -> int {
    match (action, event) {
        (Action::Pull { asset: moved, amount }, Event::Transferred { outcome: Ok(_) }) => {
            if moved == asset {
                amount as int
            } else {
                0
            }
        },
        (Action::Pay { asset: moved, amount }, Event::Transferred { outcome: Ok(_) }) => {
            if moved == asset {
                -(amount as int)
            } else {
                0
            }
        },
        _ => 0,
    }
}

impl Operation {
    /// The largest number of steps that the operation can still take.
    pub open spec fn steps_left(self) -> nat {
        match self {
            Operation::ProvideCheck { .. } => 4,
            Operation::ProvideFirst { .. } => 3,
            Operation::ProvideSecond { .. } => 2,
            Operation::SwapDeposit { .. } => 4,
            Operation::SwapQuote { .. } => 3,
            Operation::SwapPayout { .. } => 2,
            Operation::Refund { .. } => 1,
            Operation::Finished { .. } => 0,
        }
    }

    /// The state after the events, each answering the action pending when it
    /// arrives; `None` where one of them does not.
    pub open spec fn run(self, events: Seq<Event>) -> Option<Operation>
        decreases events.len(),
    {
        if events.len() == 0 {
            Some(self)
        } else {
            match self.next(events[0]) {
                Some(after) => after.run(events.drop_first()),
                None => None,
            }
        }
    }

    /// The amount of `asset` that the run has moved from the caller to the pool, on
    /// balance.
    pub open spec fn run_inflow(self, events: Seq<Event>, asset: Asset) -> int
        decreases events.len(),
    {
        if events.len() == 0 {
            0
        } else {
            match self.next(events[0]) {
                Some(after) => inflow(self.pending(), events[0], asset) + after.run_inflow(
                    events.drop_first(),
                    asset,
                ),
                None => 0,
            }
        }
    }

    /// Every step brings the operation nearer to its end, a finished operation
    /// takes no step, and an unfinished one is never stuck.
    pub proof fn lemma_step_makes_progress(self, event: Event)
        ensures
            self.next(event) matches Some(after) ==> after.steps_left() < self.steps_left(),
            self is Finished ==> self.next(event) is None,
            !(self is Finished) ==> exists|answer: Event| self.next(answer) is Some,
    {
        match self {
            Operation::ProvideCheck { .. } => {
                assert(self.next(Event::CallerBalances { balance_0: 0, balance_1: 0 }) is Some);
            },
            Operation::SwapQuote { .. } => {
                assert(self.next(Event::Supplies { offer_supply: 0, ask_supply: 0 }) is Some);
            },
            Operation::Finished { .. } => {},
            _ => {
                assert(self.next(Event::Transferred { outcome: Ok(()) }) is Some);
            },
        }
    }

    /// A run is never longer than the steps that the operation had left, and what
    /// is left after it has shrunk by its length at least.
    pub proof fn lemma_run_is_bounded(self, events: Seq<Event>)
        requires
            self.run(events) is Some,
        ensures
            events.len() + self.run(events)->0.steps_left() <= self.steps_left(),
        decreases events.len(),
    {
        if events.len() > 0 {
            let after = self.next(events[0])->0;
            self.lemma_step_makes_progress(events[0]);
            after.lemma_run_is_bounded(events.drop_first());
        }
    }
}

/// Whether the event reports a transfer that the token service refused.
pub open spec fn refused(event: Event) -> bool {
    event matches Event::Transferred { outcome: Err(_) }
}

/// A finished operation takes no further events and moves nothing.
proof fn lemma_finished_run(outcome: Result<(), Error>, events: Seq<Event>, asset: Asset)
    requires
        (Operation::Finished { outcome }).run(events) is Some,
    ensures
        events.len() == 0,
        (Operation::Finished { outcome }).run_inflow(events, asset) == 0,
{
}

/// A refund that runs to the end takes one event, fails the operation with the
/// error it carries, and pays the amount back unless the token service refuses.
proof fn lemma_refund_run(
    refunded: Asset,
    amount: Balance,
    error: Error,
    events: Seq<Event>,
    asset: Asset,
)
    requires
        (Operation::Refund { asset: refunded, amount, error }).run(events) matches Some(
            Operation::Finished { .. },
        ),
    ensures
        events.len() == 1,
        (Operation::Refund { asset: refunded, amount, error }).run(events) == Some(
            Operation::Finished { outcome: Err(error) },
        ),
        (Operation::Refund { asset: refunded, amount, error }).run_inflow(events, asset) == if asset
            == refunded && !refused(events[0]) {
            -(amount as int)
        } else {
            0
        },
{
    assert(events.len() > 0);
    lemma_finished_run(Err(error), events.drop_first(), asset);
}

/// Providing liquidity moves both amounts or neither: a run that ends well has
/// moved `value0` of the first asset and `value1` of the second to the pool; one that
/// ends in an error has moved nothing of the second, and nothing of the first
/// unless the token service refused to pay it back.
pub proof fn lemma_provide_is_atomic(value0: Balance, value1: Balance, events: Seq<Event>)
    requires
        (Operation::ProvideCheck { value0, value1 }).run(events) matches Some(
            Operation::Finished { .. },
        ),
    ensures
        ({
            let start = Operation::ProvideCheck { value0, value1 };
            let moved_0 = start.run_inflow(events, Asset::Token0);
            let moved_1 = start.run_inflow(events, Asset::Token1);
            match start.run(events)->0->outcome {
                Ok(_) => moved_0 == value0 && moved_1 == value1,
                Err(_) => moved_1 == 0 && moved_0 == if events.len() == 4 && refused(events[3]) {
                    value0 as int
                } else {
                    0
                },
            }
        }),
{
    let start = Operation::ProvideCheck { value0, value1 };
    reveal_with_fuel(Operation::run, 5);
    reveal_with_fuel(Operation::run_inflow, 5);
    assert(events.len() > 0);
    let first = start.next(events[0])->0;
    let rest1 = events.drop_first();
    match first {
        Operation::Finished { outcome } => {
            lemma_finished_run(outcome, rest1, Asset::Token0);
            lemma_finished_run(outcome, rest1, Asset::Token1);
        },
        _ => {
            assert(first == Operation::ProvideFirst { value0, value1 });
            assert(rest1.len() > 0);
            assert(rest1[0] == events[1]);
            let second = first.next(rest1[0])->0;
            let rest2 = rest1.drop_first();
            match second {
                Operation::Finished { outcome } => {
                    lemma_finished_run(outcome, rest2, Asset::Token0);
                    lemma_finished_run(outcome, rest2, Asset::Token1);
                },
                _ => {
                    assert(second == Operation::ProvideSecond { value0, value1 });
                    assert(rest2.len() > 0);
                    assert(rest2[0] == events[2]);
                    let third = second.next(rest2[0])->0;
                    let rest3 = rest2.drop_first();
                    match third {
                        Operation::Finished { outcome } => {
                            lemma_finished_run(outcome, rest3, Asset::Token0);
                            lemma_finished_run(outcome, rest3, Asset::Token1);
                        },
                        Operation::Refund { asset, amount, error } => {
                            lemma_refund_run(asset, amount, error, rest3, Asset::Token0);
                            lemma_refund_run(asset, amount, error, rest3, Asset::Token1);
                            assert(rest3[0] == events[3]);
                        },
                        _ => {},
                    }
                },
            }
        },
    }
}

/// A swap settles or leaves things as they were: a run that ends well has moved
/// `value` of the offer asset to the pool and paid the caller, in the ask asset, the
/// amount that the curve quotes on the supplies read in between; one that ends in
/// an error has paid nothing, and kept nothing of the offer unless the token
/// service refused to pay it back.
pub proof fn lemma_swap_settles(offer: Asset, value: Balance, events: Seq<Event>)
    requires
        (Operation::SwapDeposit { offer, value }).run(events) matches Some(
            Operation::Finished { .. },
        ),
    ensures
        ({
            let start = Operation::SwapDeposit { offer, value };
            let moved_offer = start.run_inflow(events, offer);
            let moved_ask = start.run_inflow(events, offer.other());
            match start.run(events)->0->outcome {
                Ok(_) => {
                    &&& events.len() == 3
                    &&& events[1] matches Event::Supplies { offer_supply, ask_supply }
                    &&& swap_quote(ask_supply, offer_supply, value) matches Ok(amount)
                    &&& moved_offer == value
                    &&& moved_ask == -(amount as int)
                },
                Err(_) => moved_ask == 0 && moved_offer == if events.len() >= 3 && refused(
                    events.last(),
                ) {
                    value as int
                } else {
                    0
                },
            }
        }),
{
    let start = Operation::SwapDeposit { offer, value };
    reveal_with_fuel(Operation::run, 5);
    reveal_with_fuel(Operation::run_inflow, 5);
    let ask = offer.other();
    assert(events.len() > 0);
    let first = start.next(events[0])->0;
    let rest1 = events.drop_first();
    match first {
        Operation::Finished { outcome } => {
            lemma_finished_run(outcome, rest1, offer);
            lemma_finished_run(outcome, rest1, ask);
        },
        _ => {
            assert(first == Operation::SwapQuote { offer, value });
            assert(rest1.len() > 0);
            assert(rest1[0] == events[1]);
            let second = first.next(rest1[0])->0;
            let rest2 = rest1.drop_first();
            assert(rest2.len() > 0);
            assert(rest2[0] == events[2]);
            match second {
                Operation::Refund { asset, amount, error } => {
                    lemma_refund_run(asset, amount, error, rest2, offer);
                    lemma_refund_run(asset, amount, error, rest2, ask);
                },
                Operation::SwapPayout { .. } => {
                    let third = second.next(rest2[0])->0;
                    let rest3 = rest2.drop_first();
                    match third {
                        Operation::Finished { outcome } => {
                            lemma_finished_run(outcome, rest3, offer);
                            lemma_finished_run(outcome, rest3, ask);
                        },
                        Operation::Refund { asset, amount, error } => {
                            lemma_refund_run(asset, amount, error, rest3, offer);
                            lemma_refund_run(asset, amount, error, rest3, ask);
                            assert(rest3[0] == events[3]);
                        },
                        _ => {},
                    }
                },
                _ => {},
            }
        },
    }
}

} // verus!
