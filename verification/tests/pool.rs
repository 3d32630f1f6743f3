use amm_pool::{
    AccountId, Action, Asset, Balance, Error, Event, Operation, Pool,
};

fn id(byte: u8) -> AccountId {
    AccountId::from_bytes([byte; 32])
}

fn pool() -> Pool {
    Pool::new(id(9), id(1), id(2), id(3))
}

#[test]
fn identities_compare_by_their_bytes() {
    assert_eq!(id(1), id(1));
    assert_ne!(id(1), id(2));
    let mut bytes = [7u8; 32];
    let a = AccountId::from_bytes(bytes);
    bytes[31] = 8;
    let b = AccountId::from_bytes(bytes);
    assert_ne!(a, b);
    assert_eq!(b.to_bytes(), bytes);
    assert_eq!(a.to_bytes(), [7u8; 32]);
}

#[test]
fn resolve_names_the_asset() {
    let pool = pool();
    assert_eq!(pool.resolve(&id(1)), Some(Asset::Token0));
    assert_eq!(pool.resolve(&id(2)), Some(Asset::Token1));
    assert_eq!(pool.resolve(&id(3)), None);
    assert_eq!(pool.resolve(&id(9)), None);
    assert_eq!(pool.token(Asset::Token0), id(1));
    assert_eq!(pool.token(Asset::Token1), id(2));
}

#[test]
fn asset_sides() {
    assert_eq!(Asset::Token0.other(), Asset::Token1);
    assert_eq!(Asset::Token1.other(), Asset::Token0);
    assert_eq!(Asset::Token0.supply(10, 20), 10);
    assert_eq!(Asset::Token1.supply(10, 20), 20);
}

#[test]
fn balance_queries_ask_the_right_service_about_the_pool() {
    let pool = pool();
    let q0 = pool.token0_balance();
    assert_eq!((q0.token, q0.holder), (id(1), id(9)));
    let q1 = pool.token1_balance();
    assert_eq!((q1.token, q1.holder), (id(2), id(9)));
    let lp = pool.lp_balance();
    assert_eq!((lp.token, lp.holder), (id(3), id(9)));
}

#[test]
fn swap_of_unknown_asset_is_refused() {
    let pool = pool();
    assert_eq!(pool.swap(id(3), 100), Err(Error::UnknownAsset));
    assert_eq!(pool.swap(id(9), 100), Err(Error::UnknownAsset));
    assert_eq!(pool.swap(id(0), 0), Err(Error::UnknownAsset));
}

#[test]
fn swap_begins_by_pulling_the_offer() {
    let pool = pool();
    let op = pool.swap(id(1), 100).unwrap();
    assert_eq!(op, Operation::SwapDeposit { offer: Asset::Token0, value: 100 });
    assert_eq!(op.action(), Action::Pull { asset: Asset::Token0, amount: 100 });
    let op = pool.swap(id(2), 7).unwrap();
    assert_eq!(op, Operation::SwapDeposit { offer: Asset::Token1, value: 7 });
    assert_eq!(op.action(), Action::Pull { asset: Asset::Token1, amount: 7 });
}

#[test]
fn simulate_quotes_in_the_direction_of_the_offer() {
    let pool = pool();
    // offer token 0 (supply 300) for token 1 (supply 700): 700 - 210000 / 350
    assert_eq!(pool.simulate(id(1), 50, 300, 700), Ok(100));
    // offer token 1 (supply 700) for token 0 (supply 300): 300 - 210000 / 750
    assert_eq!(pool.simulate(id(2), 50, 300, 700), Ok(20));
    assert_eq!(pool.simulate(id(1), 100, 1000, 1000), Ok(91));
}

#[test]
fn simulate_of_unknown_asset_is_zero() {
    let pool = pool();
    assert_eq!(pool.simulate(id(3), 100, 1000, 1000), Ok(0));
    assert_eq!(pool.simulate(id(9), 100, 1000, 1000), Ok(0));
    // no supply is looked at for an asset that the pool does not trade
    assert_eq!(pool.simulate(id(3), 100, 0, 0), Ok(0));
    assert_eq!(pool.simulate(id(3), 1, Balance::MAX, Balance::MAX), Ok(0));
}

#[test]
fn simulate_of_nothing_offered_is_zero() {
    let pool = pool();
    assert_eq!(pool.simulate(id(1), 0, 1000, 1000), Ok(0));
    assert_eq!(pool.simulate(id(2), 0, 300, 700), Ok(0));
}

#[test]
fn simulate_reports_an_exhausted_reserve() {
    let pool = pool();
    assert_eq!(pool.simulate(id(1), 100, 0, 1000), Err(Error::InsufficientBalance));
    assert_eq!(pool.simulate(id(1), 100, 1000, 0), Err(Error::InsufficientBalance));
    assert_eq!(pool.simulate(id(2), 0, 0, 0), Err(Error::InsufficientBalance));
}

#[test]
fn simulate_reports_an_overflow() {
    let pool = pool();
    let big: Balance = 1 << 64;
    assert_eq!(pool.simulate(id(1), 1, big, big), Err(Error::ArithmeticOverflow));
    assert_eq!(pool.simulate(id(1), 1, Balance::MAX, 2), Err(Error::ArithmeticOverflow));
    assert_eq!(pool.simulate(id(2), 1, 2, Balance::MAX), Err(Error::ArithmeticOverflow));
    // the offer supply grown by the value does not fit
    assert_eq!(pool.simulate(id(1), 1, Balance::MAX, 1), Err(Error::ArithmeticOverflow));
    // the other way the same supplies are quoted: MAX - MAX / 2
    assert_eq!(pool.simulate(id(2), 1, Balance::MAX, 1), Ok(Balance::MAX - Balance::MAX / 2));
}

#[test]
fn simulate_equals_what_the_swap_pays() {
    let pool = pool();
    let cases: [(u8, Balance, Balance, Balance); 4] =
        [(1, 100, 1000, 1000), (2, 100, 1000, 1000), (1, 50, 300, 700), (2, 50, 300, 700)];
    for (from, value, supply_0, supply_1) in cases {
        let preview = pool.simulate(id(from), value, supply_0, supply_1).unwrap();
        let op = pool.swap(id(from), value).unwrap();
        let offer = pool.resolve(&id(from)).unwrap();
        let op = op.step(Event::Transferred { outcome: Ok(()) }).unwrap();
        assert_eq!(op.action(), Action::ReadSupplies { offer, ask: offer.other() });
        let op = op
            .step(Event::Supplies {
                offer_supply: offer.supply(supply_0, supply_1),
                ask_supply: offer.other().supply(supply_0, supply_1),
            })
            .unwrap();
        assert_eq!(op, Operation::SwapPayout { offer, value, amount: preview });
        assert_eq!(op.action(), Action::Pay { asset: offer.other(), amount: preview });
    }
}

#[test]
fn swap_fails_with_the_error_of_a_refused_preview() {
    let pool = pool();
    let big: Balance = 1 << 64;
    let cases: [(u8, Balance, Balance, Balance, Error); 3] = [
        (1, 100, big, big, Error::ArithmeticOverflow),
        (1, 100, 1000, 0, Error::InsufficientBalance),
        (2, 100, 1000, 0, Error::InsufficientBalance),
    ];
    for (from, value, supply_0, supply_1, error) in cases {
        assert_eq!(pool.simulate(id(from), value, supply_0, supply_1), Err(error));
        let offer = pool.resolve(&id(from)).unwrap();
        let op = pool.swap(id(from), value).unwrap();
        let op = op.step(Event::Transferred { outcome: Ok(()) }).unwrap();
        let op = op
            .step(Event::Supplies {
                offer_supply: offer.supply(supply_0, supply_1),
                ask_supply: offer.other().supply(supply_0, supply_1),
            })
            .unwrap();
        assert_eq!(op, Operation::Refund { asset: offer, amount: value, error });
        let op = op.step(Event::Transferred { outcome: Ok(()) }).unwrap();
        assert_eq!(op.outcome(), Some(Err(error)));
    }
}
