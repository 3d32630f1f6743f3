//! The constant-product pricing curve.
//!
//! A trade that offers `value` of one asset against supplies `offer_supply` and
//! `ask_supply` is paid `ask_supply - (offer_supply * ask_supply) / (offer_supply + value)`
//! of the other asset, the division truncated.

use crate::error::Error;
use vstd::arithmetic::div_mod::{lemma_fundamental_div_mod, lemma_mod_bound, lemma_small_mod};
use vstd::prelude::*;

verus! {

/// An amount of an asset.
pub type Balance = u128;

/// The product that the curve holds constant.
pub open spec fn constant_product(offer_supply: nat, ask_supply: nat) -> nat {
    offer_supply * ask_supply
}

/// The amount of the ask asset that the curve pays for `value` of the offer asset.
pub open spec fn curve_output(ask_supply: nat, offer_supply: nat, value: nat) -> int {
    ask_supply - (constant_product(offer_supply, ask_supply) / (offer_supply + value)) as int
}

/// What a quote on the curve comes to, with its refusals:
/// an exhausted reserve on either side, then a product or a sum too large for a balance.
pub open spec fn swap_quote(ask_supply: Balance, offer_supply: Balance, value: Balance) -> Result<
    Balance,
    Error,
> {
    if ask_supply == 0 || offer_supply == 0 {
        Err(Error::InsufficientBalance)
    } else if constant_product(offer_supply as nat, ask_supply as nat) > Balance::MAX
        || offer_supply + value > Balance::MAX {
        Err(Error::ArithmeticOverflow)
    } else {
        Ok(curve_output(ask_supply as nat, offer_supply as nat, value as nat) as Balance)
    }
}

/// A truncated quotient, times its divisor, misses the dividend by less than the
/// divisor; it is zero exactly where the dividend is below the divisor.
pub proof fn lemma_quotient_bounds(k: int, d: int)
    requires
        0 <= k,
        0 < d,
    ensures
        0 <= k / d,
        d * (k / d) <= k < d * (k / d) + d,
        k / d == 0 <==> k < d,
{
    let q = k / d;
    lemma_fundamental_div_mod(k, d);
    lemma_mod_bound(k, d);
    assert(0 <= q && (q == 0 ==> d * q == 0) && (q >= 1 ==> d * q >= d)) by (nonlinear_arith)
        requires
            0 < d,
            k == d * q + k % d,
            0 <= k,
            k % d < d,
    ;
}

/// Where the offer supply after a trade divides the product of positive supplies,
/// the quotient is positive and, times the divisor, is the product.
proof fn lemma_exact_division(ask_supply: nat, offer_supply: nat, value: nat)
    requires
        ask_supply > 0,
        offer_supply > 0,
        constant_product(offer_supply, ask_supply) % (offer_supply + value) == 0,
    ensures
        ({
            let k = constant_product(offer_supply, ask_supply) as int;
            let d = (offer_supply + value) as int;
            k > 0 && k / d > 0 && d * (k / d) == k
        }),
{
    let k = constant_product(offer_supply, ask_supply) as int;
    let d = (offer_supply + value) as int;
    assert(k > 0) by (nonlinear_arith)
        requires
            k == offer_supply * ask_supply,
            offer_supply > 0,
            ask_supply > 0,
    ;
    lemma_fundamental_div_mod(k, d);
    lemma_quotient_bounds(k, d);
    if k < d {
        lemma_small_mod(k as nat, d as nat);
    }
}

/// The curve never pays a negative amount nor more than the whole ask supply.
pub proof fn lemma_curve_output_in_range(ask_supply: nat, offer_supply: nat, value: nat)
    requires
        offer_supply > 0,
    ensures
        0 <= curve_output(ask_supply, offer_supply, value) <= ask_supply,
{
    let k = constant_product(offer_supply, ask_supply) as int;
    let d = (offer_supply + value) as int;
    let q = k / d;
    lemma_quotient_bounds(k, d);
    assert(q <= ask_supply) by (nonlinear_arith)
        requires
            d * q <= k,
            k == offer_supply * ask_supply,
            d >= offer_supply > 0,
            0 <= q,
    ;
}

/// After a trade the product of the supplies is the product before it, less the
/// remainder of the truncated division: never more, short by less than the offer
/// supply after the trade, and the same exactly where the division leaves no
/// remainder.
pub proof fn lemma_product_after_trade(ask_supply: Balance, offer_supply: Balance, value: Balance)
    requires
        swap_quote(ask_supply, offer_supply, value) is Ok,
    ensures
        ({
            let output = swap_quote(ask_supply, offer_supply, value)->Ok_0;
            let before = constant_product(offer_supply as nat, ask_supply as nat);
            let after = (offer_supply + value) * (ask_supply - output);
            &&& output <= ask_supply
            &&& after <= before < after + (offer_supply + value)
            &&& after == before - before % ((offer_supply + value) as nat)
            &&& after >= before <==> before % ((offer_supply + value) as nat) == 0
        }),
{
    let k = constant_product(offer_supply as nat, ask_supply as nat) as int;
    let d = (offer_supply + value) as int;
    lemma_curve_output_in_range(ask_supply as nat, offer_supply as nat, value as nat);
    lemma_quotient_bounds(k, d);
    lemma_fundamental_div_mod(k, d);
    lemma_mod_bound(k, d);
}

/// Where the offer supply after a trade divides the product of the supplies before
/// it, the trade is paid less than the whole ask supply and leaves the product of
/// the supplies no smaller than it was.
///
/// Elsewhere the truncated division leaves the product smaller, and a product
/// below the divisor empties the ask side.
pub proof fn lemma_exact_trade_preserves_product(
    ask_supply: Balance,
    offer_supply: Balance,
    value: Balance,
)
    requires
        ask_supply > 0,
        offer_supply > 0,
        value > 0,
        swap_quote(ask_supply, offer_supply, value) is Ok,
        constant_product(offer_supply as nat, ask_supply as nat) % ((offer_supply + value) as nat)
            == 0,
    ensures
        ({
            let output = swap_quote(ask_supply, offer_supply, value)->Ok_0;
            &&& output < ask_supply
            &&& (offer_supply + value) * (ask_supply - output) >= constant_product(
                offer_supply as nat,
                ask_supply as nat,
            )
        }),
{
    let k = constant_product(offer_supply as nat, ask_supply as nat) as int;
    let d = (offer_supply + value) as int;
    lemma_curve_output_in_range(ask_supply as nat, offer_supply as nat, value as nat);
    lemma_exact_division(ask_supply as nat, offer_supply as nat, value as nat);
    assert(swap_quote(ask_supply, offer_supply, value)->Ok_0 == ask_supply - k / d);
}

/// The output is less than the whole ask supply exactly when the product of the
/// supplies is at least the offer supply after the trade.
pub proof fn lemma_output_below_ask(ask_supply: Balance, offer_supply: Balance, value: Balance)
    requires
        swap_quote(ask_supply, offer_supply, value) is Ok,
    ensures
        swap_quote(ask_supply, offer_supply, value)->Ok_0 < ask_supply <==> constant_product(
            offer_supply as nat,
            ask_supply as nat,
        ) >= offer_supply + value,
{
    let k = constant_product(offer_supply as nat, ask_supply as nat) as int;
    let d = (offer_supply + value) as int;
    lemma_curve_output_in_range(ask_supply as nat, offer_supply as nat, value as nat);
    lemma_quotient_bounds(k, d);
}

/// Offering nothing is paid nothing, whatever the supplies, as long as the curve can
/// be evaluated on them.
pub proof fn lemma_zero_value_pays_nothing(ask_supply: Balance, offer_supply: Balance)
    requires
        ask_supply > 0,
        offer_supply > 0,
        constant_product(offer_supply as nat, ask_supply as nat) <= Balance::MAX,
    ensures
        swap_quote(ask_supply, offer_supply, 0) == Ok::<Balance, Error>(0),
{
    let k = constant_product(offer_supply as nat, ask_supply as nat) as int;
    let d = offer_supply as int;
    lemma_quotient_bounds(k, d);
    let q = k / d;
    assert(q == ask_supply) by (nonlinear_arith)
        requires
            d * q <= k < d * q + d,
            k == d * ask_supply,
            d > 0,
    ;
}

/// Supplies whose product does not fit a balance are refused with an overflow error,
/// and so is an offer that takes the offer supply past the largest balance; no
/// wrapped amount is ever quoted.
pub proof fn lemma_overflow_is_refused(ask_supply: Balance, offer_supply: Balance, value: Balance)
    requires
        ask_supply > 0,
        offer_supply > 0,
    ensures
        offer_supply * ask_supply > Balance::MAX ==> swap_quote(ask_supply, offer_supply, value)
            == Err::<Balance, Error>(Error::ArithmeticOverflow),
        offer_supply + value > Balance::MAX ==> swap_quote(ask_supply, offer_supply, value)
            == Err::<Balance, Error>(Error::ArithmeticOverflow),
        swap_quote(ask_supply, offer_supply, value) matches Ok(output) ==> output
            == ask_supply - (offer_supply * ask_supply) / (offer_supply + value),
{
    if swap_quote(ask_supply, offer_supply, value) is Ok {
        lemma_curve_output_in_range(ask_supply as nat, offer_supply as nat, value as nat);
    }
}

/// Trading `value` of one asset and at once trading the output back, on the supplies
/// that the first trade left, returns at least `value`: truncation is in the
/// trader's favour, so a round trip never costs the trader anything.
pub proof fn lemma_round_trip_returns_at_least_value(
    ask_supply: Balance,
    offer_supply: Balance,
    value: Balance,
)
    requires
        swap_quote(ask_supply, offer_supply, value) is Ok,
        ({
            let output = swap_quote(ask_supply, offer_supply, value)->Ok_0;
            swap_quote((offer_supply + value) as Balance, (ask_supply - output) as Balance, output)
                is Ok
        }),
    ensures
        ({
            let output = swap_quote(ask_supply, offer_supply, value)->Ok_0;
            swap_quote(
                (offer_supply + value) as Balance,
                (ask_supply - output) as Balance,
                output,
            )->Ok_0 >= value
        }),
{
    let k = constant_product(offer_supply as nat, ask_supply as nat) as int;
    let d = (offer_supply + value) as int;
    let q = k / d;
    lemma_curve_output_in_range(ask_supply as nat, offer_supply as nat, value as nat);
    lemma_quotient_bounds(k, d);
    let output = swap_quote(ask_supply, offer_supply, value)->Ok_0;
    assert(output == ask_supply - q);
    // The way back: `q` is the offer supply, `d` the ask supply, `output` the value.
    let k2 = constant_product(q as nat, d as nat) as int;
    let d2 = q + output;
    assert(d2 == ask_supply);
    assert(k2 == q * d);
    assert(k2 >= 0) by (nonlinear_arith)
        requires
            k2 == q * d,
            q >= 0,
            d > 0,
    ;
    lemma_quotient_bounds(k2, d2);
    let q2 = k2 / d2;
    assert(q2 <= offer_supply) by (nonlinear_arith)
        requires
            d2 * q2 <= k2,
            k2 == q * d,
            d * q <= k,
            k == offer_supply * ask_supply,
            d2 == ask_supply,
            d2 > 0,
            q2 >= 0,
    ;
}

/// Where the offer supply after the trade divides the product of the supplies,
/// trading `value` and at once trading the output back, on the supplies that the
/// first trade left, returns `value` itself, and so no more than was put in.
pub proof fn lemma_exact_round_trip_returns_value(
    ask_supply: Balance,
    offer_supply: Balance,
    value: Balance,
)
    requires
        ask_supply > 0,
        offer_supply > 0,
        swap_quote(ask_supply, offer_supply, value) is Ok,
        constant_product(offer_supply as nat, ask_supply as nat) % ((offer_supply + value) as nat)
            == 0,
    ensures
        ({
            let output = swap_quote(ask_supply, offer_supply, value)->Ok_0;
            let back = swap_quote(
                (offer_supply + value) as Balance,
                (ask_supply - output) as Balance,
                output,
            );
            back == Ok::<Balance, Error>(value)
        }),
{
    let k = constant_product(offer_supply as nat, ask_supply as nat) as int;
    let d = (offer_supply + value) as int;
    let q = k / d;
    lemma_curve_output_in_range(ask_supply as nat, offer_supply as nat, value as nat);
    lemma_exact_division(ask_supply as nat, offer_supply as nat, value as nat);
    let output = swap_quote(ask_supply, offer_supply, value)->Ok_0;
    assert(output == ask_supply - q);
    let k2 = constant_product(q as nat, d as nat) as int;
    let d2 = q + output;
    assert(k2 == k) by (nonlinear_arith)
        requires
            k2 == q * d,
            d * q == k,
    ;
    assert(d2 == ask_supply);
    lemma_quotient_bounds(k2, d2);
    let q2 = k2 / d2;
    assert(q2 == offer_supply) by (nonlinear_arith)
        requires
            d2 * q2 <= k2 < d2 * q2 + d2,
            k2 == offer_supply * d2,
            d2 > 0,
    ;
}

/// Quotes a trade on the curve: the amount of the ask asset paid for `value` of the
/// offer asset, given the supplies of both before the trade.
///
/// Refused with `InsufficientBalance` where either supply is zero, and otherwise with
/// `ArithmeticOverflow` where the product of the supplies, or the offer supply
/// increased by `value`, does not fit a balance.
pub fn compute_swap(ask_supply: Balance, offer_supply: Balance, value: Balance) -> (r: Result<
    Balance,
    Error,
>)
    ensures
        r == swap_quote(ask_supply, offer_supply, value),
{
    if ask_supply == 0 || offer_supply == 0 {
        return Err(Error::InsufficientBalance);
    }
    let cp = match offer_supply.checked_mul(ask_supply) {
        Some(cp) => cp,
        None => {
            return Err(Error::ArithmeticOverflow);
        },
    };
    let offered = match offer_supply.checked_add(value) {
        Some(offered) => offered,
        None => {
            return Err(Error::ArithmeticOverflow);
        },
    };
    proof {
        lemma_curve_output_in_range(ask_supply as nat, offer_supply as nat, value as nat);
    }
    let divisor = cp / offered;
    Ok(ask_supply - divisor)
}

} // verus!
