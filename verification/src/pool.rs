//! The pool: the three assets it is bound to, and what it decides without moving
//! anything.

use crate::curve::{compute_swap, swap_quote, Balance};
use crate::error::Error;
use crate::identity::AccountId;
use crate::accounting::lemma_swap_settles;
use crate::operation::{Action, Event, Operation};
use vstd::prelude::*;

verus! {

/// One of the two assets that the pool trades.
#[derive(Clone, Copy, Debug, PartialEq, Eq, Structural)]
pub enum Asset {
    Token0,
    Token1,
}

impl Asset {
    /// The asset on the other side of a trade.
    pub open spec fn other_spec(self) -> Asset {
        match self {
            Asset::Token0 => Asset::Token1,
            Asset::Token1 => Asset::Token0,
        }
    }

    /// The asset on the other side of a trade.
    #[verifier::when_used_as_spec(other_spec)]
    pub fn other(self) -> (asset: Asset)
        ensures
            asset == self.other_spec(),
    {
        match self {
            Asset::Token0 => Asset::Token1,
            Asset::Token1 => Asset::Token0,
        }
    }

    /// Of the total supplies of the two assets, the one of this asset.
    pub open spec fn supply_spec(self, supply_0: Balance, supply_1: Balance) -> Balance {
        match self {
            Asset::Token0 => supply_0,
            Asset::Token1 => supply_1,
        }
    }

    /// Of the total supplies of the two assets, the one of this asset.
    #[verifier::when_used_as_spec(supply_spec)]
    pub fn supply(self, supply_0: Balance, supply_1: Balance) -> (supply: Balance)
        ensures
            supply == self.supply_spec(supply_0, supply_1),
    {
        match self {
            Asset::Token0 => supply_0,
            Asset::Token1 => supply_1,
        }
    }
}

/// A balance to be read from a token service: the holdings of `holder` in `token`.
#[derive(Clone, Copy, Debug)]
pub struct BalanceQuery {
    pub token: AccountId,
    pub holder: AccountId,
}

/// A liquidity pool over two assets, with a third asset that stands for shares in it.
///
/// The pool holds the identities of the three token services and its own; the
/// balances themselves live in the services' ledgers.
#[derive(Clone, Copy, Debug)]
pub struct Pool {
    account: AccountId,
    token_0: AccountId,
    token_1: AccountId,
    lp: AccountId,
}

/// What a pool is bound to.
pub struct PoolView {
    pub account: AccountId,
    pub token_0: AccountId,
    pub token_1: AccountId,
    pub lp: AccountId,
}

impl View for Pool {
    type V = PoolView;

    closed spec fn view(&self) -> PoolView {
        PoolView { account: self.account, token_0: self.token_0, token_1: self.token_1, lp: self.lp }
    }
}

impl Pool {
    /// A pool never pairs an asset with itself.
    pub open spec fn wf(&self) -> bool {
        self@.token_0 != self@.token_1
    }

    /// The asset that `from` names, if the pool trades it.
    pub open spec fn asset_of(&self, from: AccountId) -> Option<Asset> {
        if from == self@.token_0 {
            Some(Asset::Token0)
        } else if from == self@.token_1 {
            Some(Asset::Token1)
        } else {
            None
        }
    }

    /// The identity of the token service behind an asset.
    pub open spec fn token_of(&self, asset: Asset) -> AccountId {
        match asset {
            Asset::Token0 => self@.token_0,
            Asset::Token1 => self@.token_1,
        }
    }

    /// The preview of a swap of `value` of the asset `from`, given the total supplies of
    /// the two assets: the quote of the curve in the direction of the offer, with
    /// the curve's own refusals, and `Ok(0)` where the pool does not trade `from`.
    pub open spec fn simulate_spec(
        &self,
        from: AccountId,
        value: Balance,
        supply_0: Balance,
        supply_1: Balance,
    ) -> Result<Balance, Error> {
        match self.asset_of(from) {
            None => Ok(0),
            Some(offer) => swap_quote(
                offer.other().supply(supply_0, supply_1),
                offer.supply(supply_0, supply_1),
                value,
            ),
        }
    }

    /// Binds a pool, whose own account is `account`, to the two assets it trades and
    /// to its share token.
    pub fn new(account: AccountId, token_0: AccountId, token_1: AccountId, lp: AccountId) -> (pool:
        Pool)
        requires
            token_0 != token_1,
        ensures
            pool.wf(),
            pool@ == (PoolView { account, token_0, token_1, lp }),
    {
        Pool { account, token_0, token_1, lp }
    }

    /// Which of the two assets `from` names: the first where it names both, none where
    /// it names neither.
    pub fn resolve(&self, from: &AccountId) -> (asset: Option<Asset>)
        ensures
            asset == self.asset_of(*from),
    {
        if *from == self.token_0 {
            Some(Asset::Token0)
        } else if *from == self.token_1 {
            Some(Asset::Token1)
        } else {
            None
        }
    }

    /// The identity of the token service behind an asset.
    pub fn token(&self, asset: Asset) -> (id: AccountId)
        ensures
            id == self.token_of(asset),
    {
        match asset {
            Asset::Token0 => self.token_0,
            Asset::Token1 => self.token_1,
        }
    }

    /// The pool's own holdings of the first asset, as a query to its token service.
    pub fn token0_balance(&self) -> (query: BalanceQuery)
        ensures
            query.token == self@.token_0,
            query.holder == self@.account,
    {
        BalanceQuery { token: self.token_0, holder: self.account }
    }

    /// The pool's own holdings of the second asset, as a query to its token service.
    pub fn token1_balance(&self) -> (query: BalanceQuery)
        ensures
            query.token == self@.token_1,
            query.holder == self@.account,
    {
        BalanceQuery { token: self.token_1, holder: self.account }
    }

    /// The pool's own holdings of its share token, as a query to that token's service.
    pub fn lp_balance(&self) -> (query: BalanceQuery)
        ensures
            query.token == self@.lp,
            query.holder == self@.account,
    {
        BalanceQuery { token: self.lp, holder: self.account }
    }

    /// What a swap of `value` of the asset `from` begins with: the pull of the offer,
    /// or the refusal of an asset that the pool does not trade.
    pub open spec fn swap_spec(&self, from: AccountId, value: Balance) -> Result<Operation, Error> {
        match self.asset_of(from) {
            Some(offer) => Ok(Operation::SwapDeposit { offer, value }),
            None => Err(Error::UnknownAsset),
        }
    }

    /// Begins to provide liquidity: `value0` of the first asset and `value1` of the
    /// second are to move from the caller to the pool, both or neither.
    ///
    /// The operation starts by reading the caller's balances, so that a caller short
    /// of either amount is refused before anything moves.
    pub fn provide_lp(&self, value0: Balance, value1: Balance) -> (op: Operation)
        ensures
            op == (Operation::ProvideCheck { value0, value1 }),
    {
        Operation::ProvideCheck { value0, value1 }
    }

    /// Begins a swap of `value` of the asset `from` for the other asset.
    ///
    /// Refused with `UnknownAsset`, before anything is asked of any token service,
    /// exactly where `from` is neither of the pool's two assets.
    pub fn swap(&self, from: AccountId, value: Balance) -> (op: Result<Operation, Error>)
        ensures
            op == self.swap_spec(from, value),
    {
        match self.resolve(&from) {
            Some(offer) => Ok(Operation::SwapDeposit { offer, value }),
            None => Err(Error::UnknownAsset),
        }
    }

    /// Previews a swap of `value` of the asset `from` without moving anything: the
    /// output that the swap would be paid on the given total supplies of the two
    /// assets.
    ///
    /// An asset that the pool does not trade is previewed as `Ok(0)`, where a swap
    /// would be refused. Where the curve refuses the quote, the preview is refused
    /// with the same error: `InsufficientBalance` for an exhausted reserve,
    /// `ArithmeticOverflow` for a product or a sum that does not fit a balance.
    pub fn simulate(
        &self,
        from: AccountId,
        value: Balance,
        supply_0: Balance,
        supply_1: Balance,
    ) -> (preview: Result<Balance, Error>)
        ensures
            preview == self.simulate_spec(from, value, supply_0, supply_1),
    {
        let offer = match self.resolve(&from) {
            Some(offer) => offer,
            None => {
                return Ok(0);
            },
        };
        let offer_supply = offer.supply(supply_0, supply_1);
        let ask_supply = offer.other().supply(supply_0, supply_1);
        compute_swap(ask_supply, offer_supply, value)
    }
}

/// In a pool that pairs two distinct assets, assets and identities name each other:
/// an identity names an asset exactly when it is that asset's token service, and
/// the two sides of a trade are different services.
pub proof fn lemma_assets_and_identities(pool: Pool, from: AccountId, asset: Asset)
    requires
        pool.wf(),
    ensures
        pool.asset_of(pool.token_of(asset)) == Some(asset),
        pool.asset_of(from) == Some(asset) <==> from == pool.token_of(asset),
        pool.token_of(asset) != pool.token_of(asset.other()),
{
}

/// A swap is refused exactly where the asset offered is neither of the pool's two, and
/// then with `UnknownAsset`; a refused swap is no operation, so nothing is asked of
/// any token service and no balance changes.
pub proof fn lemma_swap_refuses_unknown_asset(pool: Pool, from: AccountId, value: Balance)
    ensures
        (from != pool@.token_0 && from != pool@.token_1) <==> pool.swap_spec(from, value) is Err,
        pool.swap_spec(from, value) is Err ==> pool.swap_spec(from, value) == Err::<
            Operation,
            Error,
        >(Error::UnknownAsset),
        pool.swap_spec(from, value) matches Ok(op) ==> op.pending() == (Action::Pull {
            asset: pool.asset_of(from)->0,
            amount: value,
        }),
{
}

/// The preview of a swap of an asset that the pool does not trade is the amount 0,
/// and no error.
pub proof fn lemma_simulate_unknown_asset(
    pool: Pool,
    from: AccountId,
    value: Balance,
    supply_0: Balance,
    supply_1: Balance,
)
    requires
        from != pool@.token_0,
        from != pool@.token_1,
    ensures
        pool.simulate_spec(from, value, supply_0, supply_1) == Ok::<Balance, Error>(0),
{
}

/// A preview and the swap that follows it on the same supplies agree. Once the offer
/// is pulled and the supplies are read, the swap pays the ask asset exactly where
/// the preview is an amount, and in exactly that amount; it pays the offer back
/// exactly where the preview is refused, and is then to fail with the preview's
/// error.
pub proof fn lemma_simulate_matches_swap(
    pool: Pool,
    from: AccountId,
    value: Balance,
    supply_0: Balance,
    supply_1: Balance,
)
    requires
        pool.swap_spec(from, value) is Ok,
    ensures
        ({
            let offer = pool.asset_of(from)->0;
            let preview = pool.simulate_spec(from, value, supply_0, supply_1);
            let begun = pool.swap_spec(from, value)->Ok_0;
            let pulled = begun.next(Event::Transferred { outcome: Ok(()) });
            let quoted = pulled->0.next(
                Event::Supplies {
                    offer_supply: offer.supply(supply_0, supply_1),
                    ask_supply: offer.other().supply(supply_0, supply_1),
                },
            );
            &&& pulled is Some
            &&& pulled->0.pending() == (Action::ReadSupplies { offer, ask: offer.other() })
            &&& quoted is Some
            &&& preview matches Ok(amount) ==> quoted->0 == (Operation::SwapPayout {
                offer,
                value,
                amount,
            }) && quoted->0.pending() == (Action::Pay { asset: offer.other(), amount })
            &&& preview matches Err(error) ==> quoted->0 == (Operation::Refund {
                asset: offer,
                amount: value,
                error,
            }) && quoted->0.pending() == (Action::Pay { asset: offer, amount: value })
        }),
{
}

/// A swap that ends well has paid what its preview on the same supplies says: the
/// preview on the supplies that the swap read is an amount, and the run has moved
/// `value` of the offer to the pool and that amount of the ask asset to the caller.
pub proof fn lemma_finished_swap_paid_the_preview(
    pool: Pool,
    from: AccountId,
    value: Balance,
    events: Seq<Event>,
)
    requires
        pool.swap_spec(from, value) matches Ok(begun) && begun.run(events) == Some(
            Operation::Finished { outcome: Ok(()) },
        ),
    ensures
        ({
            let offer = pool.asset_of(from)->0;
            let begun = pool.swap_spec(from, value)->Ok_0;
            &&& events.len() == 3
            &&& events[1] matches Event::Supplies { offer_supply, ask_supply }
            &&& match offer {
                Asset::Token0 => pool.simulate_spec(from, value, offer_supply, ask_supply),
                Asset::Token1 => pool.simulate_spec(from, value, ask_supply, offer_supply),
            } matches Ok(amount)
            &&& begun.run_inflow(events, offer) == value
            &&& begun.run_inflow(events, offer.other()) == -(amount as int)
        }),
{
    let offer = pool.asset_of(from)->0;
    lemma_swap_settles(offer, value, events);
}

} // verus!
