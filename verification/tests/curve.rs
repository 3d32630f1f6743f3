use amm_pool::{compute_swap, Balance, Error};

#[test]
fn worked_example_pays_ninety_one() {
    assert_eq!(compute_swap(1000, 1000, 100), Ok(91));
}

#[test]
fn formula_is_ask_minus_truncated_quotient() {
    // 300 * 700 = 210000; 210000 / 350 = 600; 700 - 600 = 100
    assert_eq!(compute_swap(700, 300, 50), Ok(100));
    // 7 * 5 = 35; 35 / 8 = 4; 5 - 4 = 1
    assert_eq!(compute_swap(5, 7, 1), Ok(1));
    // 35 / 7 = 5; 7 - 5 = 2: the arguments are the ask supply first
    assert_eq!(compute_swap(7, 5, 2), Ok(2));
}

#[test]
fn zero_value_pays_nothing() {
    assert_eq!(compute_swap(1000, 1000, 0), Ok(0));
    assert_eq!(compute_swap(1, 1, 0), Ok(0));
    assert_eq!(compute_swap(123_456_789, 987, 0), Ok(0));
    let root: Balance = 1 << 63;
    assert_eq!(compute_swap(root, root, 0), Ok(0));
}

#[test]
fn output_is_below_ask_when_product_reaches_divisor() {
    let cases: [(Balance, Balance, Balance); 4] =
        [(1000, 1000, 100), (2, 2, 2), (10, 3, 27), (1_000_000, 1, 999_999)];
    for (ask, offer, value) in cases {
        assert!(offer * ask >= offer + value);
        let out = compute_swap(ask, offer, value).unwrap();
        assert!(out < ask);
    }
}

#[test]
fn output_is_whole_ask_when_product_is_below_divisor() {
    assert_eq!(compute_swap(1, 1, 1), Ok(1));
    assert_eq!(compute_swap(1000, 1, 1000), Ok(1000));
}

#[test]
fn product_after_trade_is_short_by_the_remainder() {
    let cases: [(Balance, Balance, Balance); 4] =
        [(1000, 1000, 100), (700, 300, 50), (5, 7, 1), (999, 1001, 333)];
    for (ask, offer, value) in cases {
        let out = compute_swap(ask, offer, value).unwrap();
        let before = offer * ask;
        let after = (offer + value) * (ask - out);
        assert!(after <= before);
        assert!(before < after + offer + value);
        assert_eq!(after, before - before % (offer + value));
    }
    // the worked example leaves 100 of the product behind
    assert_eq!(1100 * (1000 - 91), 1_000_000 - 100);
}

#[test]
fn exact_trade_preserves_product() {
    // 1000 * 1000 is a multiple of 2000
    let out = compute_swap(1000, 1000, 1000).unwrap();
    assert_eq!(out, 500);
    assert!(out < 1000);
    assert!((1000 + 1000) * (1000 - out) >= 1000 * 1000);
}

#[test]
fn exact_round_trip_returns_value() {
    let out = compute_swap(1000, 1000, 1000).unwrap();
    assert_eq!(out, 500);
    let back = compute_swap(1000 + 1000, 1000 - out, out).unwrap();
    assert_eq!(back, 1000);
}

#[test]
fn truncated_round_trip_returns_more_than_value() {
    let out = compute_swap(1000, 1000, 100).unwrap();
    assert_eq!(out, 91);
    let back = compute_swap(1000 + 100, 1000 - out, out).unwrap();
    assert_eq!(back, 101);
    assert!(back >= 100);
}

#[test]
fn product_overflow_is_refused() {
    let big: Balance = 1 << 64;
    assert_eq!(compute_swap(big, big, 1), Err(Error::ArithmeticOverflow));
    assert_eq!(compute_swap(Balance::MAX, 2, 0), Err(Error::ArithmeticOverflow));
    assert_eq!(compute_swap(2, Balance::MAX, 0), Err(Error::ArithmeticOverflow));
}

#[test]
fn largest_product_that_fits_is_quoted() {
    let root: Balance = (1 << 64) - 1;
    // root * root = 2^128 - 2^65 + 1 fits; divided by root it gives root back
    assert_eq!(compute_swap(root, root, 0), Ok(0));
    assert_eq!(compute_swap(Balance::MAX, 1, 0), Ok(0));
    assert_eq!(compute_swap(Balance::MAX, 1, 1), Ok(Balance::MAX - Balance::MAX / 2));
}

#[test]
fn offer_sum_overflow_is_refused() {
    assert_eq!(compute_swap(1, Balance::MAX, 1), Err(Error::ArithmeticOverflow));
    assert_eq!(compute_swap(1, Balance::MAX - 1, 2), Err(Error::ArithmeticOverflow));
    assert_eq!(compute_swap(1, Balance::MAX - 1, 1), Ok(1));
}

#[test]
fn exhausted_reserve_is_refused() {
    assert_eq!(compute_swap(0, 1000, 100), Err(Error::InsufficientBalance));
    assert_eq!(compute_swap(1000, 0, 100), Err(Error::InsufficientBalance));
    assert_eq!(compute_swap(0, 0, 0), Err(Error::InsufficientBalance));
    // an exhausted reserve is reported before any overflow
    assert_eq!(compute_swap(0, Balance::MAX, Balance::MAX), Err(Error::InsufficientBalance));
}
