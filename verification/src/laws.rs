//! Laws of the pricing arithmetic, stated once for all inputs and proved.
//!
//! These are the engine's economic guarantees: the spread can only reduce an
//! amount; a round trip through the exchange never creates value in either
//! order of the two swap styles; and when no truncation intervenes, exact-out
//! pricing is the exact inverse of exact-in pricing.

use vstd::prelude::*;

use vstd::arithmetic::div_mod::{
    lemma_div_by_self, lemma_div_is_ordered, lemma_div_multiples_vanish, lemma_div_pos_is_pos,
    lemma_fundamental_div_mod, lemma_fundamental_div_mod_converse, lemma_mod_bound,
};
use vstd::arithmetic::mul::{
    lemma_mul_inequality, lemma_mul_inequality_converse, lemma_mul_is_commutative,
    lemma_mul_nonnegative, lemma_mul_strict_inequality, lemma_mul_strict_inequality_converse,
};

use crate::pricing::{
    convert_amount, gross_output, net_output, required_input, spread_fee, taxed_input,
    PRICE_SCALE_FACTOR, SPREAD_SCALE_FACTOR,
};

verus! {

/// Converting a non-negative amount at a positive price never yields a
/// negative value.
pub proof fn lemma_convert_amount_nonnegative(price: int, amount: int, from_x: bool)
    requires
        price > 0,
        amount >= 0,
    ensures
        convert_amount(price, amount, from_x) >= 0,
{
    if from_x {
        lemma_mul_nonnegative(amount, price);
        lemma_div_pos_is_pos(amount * price, PRICE_SCALE_FACTOR as int);
    } else {
        lemma_mul_nonnegative(amount, PRICE_SCALE_FACTOR as int);
        lemma_div_pos_is_pos(amount * (PRICE_SCALE_FACTOR as int), price);
    }
}

/// The spread fee lies between zero and the amount it is charged on: a zero
/// spread charges nothing, and the fee reaches a whole unit as soon as the
/// product of amount and spread reaches one full scale. (For smaller
/// products the fee truncates to zero, so the amount passes through whole
/// even at a nonzero spread.)
pub proof fn lemma_spread_fee_bounds(amount: int, spread_bps: int)
    requires
        amount >= 0,
        0 <= spread_bps < SPREAD_SCALE_FACTOR,
    ensures
        0 <= spread_fee(amount, spread_bps) <= amount,
        spread_bps == 0 ==> spread_fee(amount, spread_bps) == 0,
        amount * spread_bps >= SPREAD_SCALE_FACTOR ==> spread_fee(amount, spread_bps) >= 1,
{
    let t = SPREAD_SCALE_FACTOR as int;
    lemma_mul_nonnegative(amount, spread_bps);
    lemma_div_pos_is_pos(amount * spread_bps, t);
    lemma_mul_inequality(spread_bps, t, amount);
    lemma_mul_is_commutative(spread_bps, amount);
    lemma_mul_is_commutative(t, amount);
    lemma_div_is_ordered(amount * spread_bps, amount * t, t);
    lemma_div_multiples_vanish(amount, t);
    if amount * spread_bps >= t {
        lemma_div_is_ordered(t, amount * spread_bps, t);
        lemma_div_by_self(t);
    }
}

/// An exact-in swap never pays out more than the gross counter-amount; it
/// pays exactly the gross amount when the spread is zero, and strictly less
/// as soon as the fee amounts to a whole unit.
pub proof fn lemma_net_output_at_most_gross(
    price: int,
    input_amount: int,
    input_is_x: bool,
    spread_bps: int,
)
    requires
        price > 0,
        input_amount >= 0,
        0 <= spread_bps < SPREAD_SCALE_FACTOR,
    ensures
        net_output(price, input_amount, input_is_x, spread_bps) <= gross_output(
            price,
            input_amount,
            input_is_x,
        ),
        spread_bps == 0 ==> net_output(price, input_amount, input_is_x, spread_bps)
            == gross_output(price, input_amount, input_is_x),
        gross_output(price, input_amount, input_is_x) * spread_bps >= SPREAD_SCALE_FACTOR
            ==> net_output(price, input_amount, input_is_x, spread_bps) < gross_output(
            price,
            input_amount,
            input_is_x,
        ),
{
    lemma_convert_amount_nonnegative(price, input_amount, input_is_x);
    lemma_spread_fee_bounds(gross_output(price, input_amount, input_is_x), spread_bps);
}

/// Swapping exact-in and then asking for the same amount back exact-out,
/// in the opposite direction at the same price and spread, demands at least
/// as much input as the first swap paid out: a round trip in this order
/// never returns more value than was put in.
pub proof fn lemma_round_trip_in_then_out(
    price: int,
    spread_bps: int,
    input_amount: int,
    input_is_x: bool,
)
    requires
        price > 0,
        0 <= spread_bps < SPREAD_SCALE_FACTOR,
        input_amount >= 0,
    ensures
        required_input(price, input_amount, input_is_x, spread_bps) >= net_output(
            price,
            input_amount,
            input_is_x,
            spread_bps,
        ),
{
    let t = SPREAD_SCALE_FACTOR as int;
    let d = t - spread_bps;
    let g = gross_output(price, input_amount, input_is_x);
    lemma_convert_amount_nonnegative(price, input_amount, input_is_x);
    lemma_spread_fee_bounds(g, spread_bps);
    lemma_mul_inequality(d, t, g);
    lemma_mul_is_commutative(d, g);
    lemma_mul_is_commutative(t, g);
    lemma_div_is_ordered(g * d, g * t, d);
    lemma_div_multiples_vanish(g, d);
}

/// Swapping exact-out and then feeding the required input back through the
/// exact-in pricing, in the opposite direction at the same price and spread,
/// never yields more than the exact-out target: a round trip in this order
/// never returns more value than was asked for.
pub proof fn lemma_round_trip_out_then_in_never_exceeds(
    price: int,
    spread_bps: int,
    output_amount: int,
    output_is_x: bool,
)
    requires
        price > 0,
        0 <= spread_bps < SPREAD_SCALE_FACTOR,
        output_amount >= 0,
    ensures
        net_output(
            price,
            required_input(price, output_amount, output_is_x, spread_bps),
            !output_is_x,
            spread_bps,
        ) <= output_amount,
{
    let sc = PRICE_SCALE_FACTOR as int;
    let t = SPREAD_SCALE_FACTOR as int;
    let d = t - spread_bps;
    let o = output_amount;
    let tax = taxed_input(price, o, output_is_x);
    let r = required_input(price, o, output_is_x, spread_bps);
    let g = gross_output(price, r, !output_is_x);
    let f = spread_fee(g, spread_bps);

    lemma_convert_amount_nonnegative(price, o, output_is_x);
    lemma_mul_nonnegative(tax, t);
    lemma_div_pos_is_pos(tax * t, d);
    lemma_convert_amount_nonnegative(price, r, !output_is_x);

    // Each truncating division under-approximates its exact quotient.
    lemma_fundamental_div_mod(tax * t, d);
    lemma_mod_bound(tax * t, d);
    assert(d * r <= tax * t);
    if output_is_x {
        // tax == (o * price) / sc and g == (r * sc) / price.
        lemma_fundamental_div_mod(o * price, sc);
        lemma_mod_bound(o * price, sc);
        assert(sc * tax <= o * price);
        lemma_fundamental_div_mod(r * sc, price);
        lemma_mod_bound(r * sc, price);
        assert(price * g <= r * sc);
        // Chain the three bounds into g * d <= o * t.
        lemma_mul_inequality(price * g, r * sc, d);
        lemma_mul_inequality(d * r, tax * t, sc);
        lemma_mul_inequality(sc * tax, o * price, t);
        assert((r * sc) * d == (d * r) * sc && (tax * t) * sc == (sc * tax) * t && (price * g) * d
            == (g * d) * price && (o * price) * t == (o * t) * price) by (nonlinear_arith);
        assert((g * d) * price <= (o * t) * price);
        lemma_mul_inequality_converse(g * d, o * t, price);
    } else {
        // tax == (o * sc) / price and g == (r * price) / sc.
        lemma_fundamental_div_mod(o * sc, price);
        lemma_mod_bound(o * sc, price);
        assert(price * tax <= o * sc);
        lemma_fundamental_div_mod(r * price, sc);
        lemma_mod_bound(r * price, sc);
        assert(sc * g <= r * price);
        lemma_mul_inequality(sc * g, r * price, d);
        lemma_mul_inequality(d * r, tax * t, price);
        lemma_mul_inequality(price * tax, o * sc, t);
        assert((r * price) * d == (d * r) * price && (tax * t) * price == (price * tax) * t && (sc
            * g) * d == (g * d) * sc && (o * sc) * t == (o * t) * sc) by (nonlinear_arith);
        assert((g * d) * sc <= (o * t) * sc);
        lemma_mul_inequality_converse(g * d, o * t, sc);
    }
    assert(g * d <= o * t);

    // The fee truncates by less than one unit of the spread scale.
    lemma_fundamental_div_mod(g * spread_bps, t);
    lemma_mod_bound(g * spread_bps, t);
    assert(t * f > g * spread_bps - t);

    assert((g - f) * t == g * t - f * t && f * t == t * f && g * (t - spread_bps) == g * t - g
        * spread_bps) by (nonlinear_arith);
    assert((g - f) * t < (o + 1) * t) by {
        assert((o + 1) * t == o * t + t) by (nonlinear_arith);
    };
    lemma_mul_strict_inequality_converse(g - f, o + 1, t);
}

/// Two non-negative fractions with equal cross-products have equal
/// truncating quotients.
proof fn lemma_div_of_equal_products(a: int, b: int, c: int, d: int)
    requires
        a >= 0,
        b >= 0,
        c > 0,
        d > 0,
        a * d == b * c,
    ensures
        a / c == b / d,
{
    let q1 = a / c;
    let r1 = a % c;
    let q2 = b / d;
    let r2 = b % d;
    lemma_fundamental_div_mod(a, c);
    lemma_mod_bound(a, c);
    lemma_fundamental_div_mod(b, d);
    lemma_mod_bound(b, d);
    assert((q1 - q2) * (c * d) == r2 * c - r1 * d) by (nonlinear_arith)
        requires
            a == c * q1 + r1,
            b == d * q2 + r2,
            a * d == b * c,
    ;
    lemma_mul_nonnegative(r1, d);
    lemma_mul_nonnegative(r2, c);
    lemma_mul_strict_inequality(r2, d, c);
    lemma_mul_strict_inequality(r1, c, d);
    assert(d * c == c * d && r2 * c < d * c && r1 * d < c * d) by (nonlinear_arith)
        requires
            r2 * c < d * c,
            r1 * d < c * d,
    ;
    lemma_mul_nonnegative(c, d);
    if q1 > q2 {
        lemma_mul_inequality(1, q1 - q2, c * d);
        assert(1 * (c * d) == c * d && (q1 - q2) * (c * d) >= c * d);
        assert(false);
    }
    if q2 > q1 {
        lemma_mul_inequality(1, q2 - q1, c * d);
        assert((q2 - q1) * (c * d) == -((q1 - q2) * (c * d))) by (nonlinear_arith);
        assert(false);
    }
}

/// When no truncation intervenes — the price conversion of the target and
/// the spread gross-up both divide exactly — exact-out pricing is the exact
/// inverse of exact-in pricing: feeding the required input back through the
/// exact-in formula, in the opposite direction at the same price and spread,
/// reproduces the target output to the unit.
pub proof fn lemma_round_trip_out_then_in_exact(
    price: int,
    spread_bps: int,
    output_amount: int,
    output_is_x: bool,
)
    requires
        price > 0,
        0 <= spread_bps < SPREAD_SCALE_FACTOR,
        output_amount >= 0,
        if output_is_x {
            (output_amount * price) % (PRICE_SCALE_FACTOR as int) == 0
        } else {
            (output_amount * (PRICE_SCALE_FACTOR as int)) % price == 0
        },
        (taxed_input(price, output_amount, output_is_x) * (SPREAD_SCALE_FACTOR as int)) % (
        SPREAD_SCALE_FACTOR as int - spread_bps) == 0,
    ensures
        net_output(
            price,
            required_input(price, output_amount, output_is_x, spread_bps),
            !output_is_x,
            spread_bps,
        ) == output_amount,
{
    let sc = PRICE_SCALE_FACTOR as int;
    let t = SPREAD_SCALE_FACTOR as int;
    let d = t - spread_bps;
    let o = output_amount;
    let tax = taxed_input(price, o, output_is_x);
    let r = required_input(price, o, output_is_x, spread_bps);
    let g = gross_output(price, r, !output_is_x);

    lemma_convert_amount_nonnegative(price, o, output_is_x);
    lemma_mul_nonnegative(tax, t);
    lemma_div_pos_is_pos(tax * t, d);
    lemma_mul_nonnegative(o, t);

    // Both forward divisions are exact.
    lemma_fundamental_div_mod(tax * t, d);
    assert(tax * t == d * r);
    if output_is_x {
        lemma_fundamental_div_mod(o * price, sc);
        assert(o * price == sc * tax);
        // g == (r * sc) / price, and (r * sc) * d == (o * t) * price.
        lemma_mul_nonnegative(r, sc);
        assert((r * sc) * d == (o * t) * price) by (nonlinear_arith)
            requires
                tax * t == d * r,
                o * price == sc * tax,
        ;
        lemma_div_of_equal_products(r * sc, o * t, price, d);
    } else {
        lemma_fundamental_div_mod(o * sc, price);
        assert(o * sc == price * tax);
        // g == (r * price) / sc, and (r * price) * d == (o * t) * sc.
        lemma_mul_nonnegative(r, price);
        assert((r * price) * d == (o * t) * sc) by (nonlinear_arith)
            requires
                tax * t == d * r,
                o * sc == price * tax,
        ;
        lemma_div_of_equal_products(r * price, o * t, sc, d);
    }
    assert(g == (o * t) / d);

    // g is at least o, since the grossed-up quotient can only round down to o.
    let rho = (o * t) % d;
    lemma_fundamental_div_mod(o * t, d);
    lemma_mod_bound(o * t, d);
    lemma_mul_inequality(d, t, o);
    lemma_mul_is_commutative(d, o);
    lemma_mul_is_commutative(t, o);
    lemma_div_is_ordered(o * d, o * t, d);
    lemma_div_multiples_vanish(o, d);
    assert(g >= o);

    // The fee works out to exactly the gross-up: g * spread == (g - o) * t + rho.
    assert(g * spread_bps == (g - o) * t + rho) by (nonlinear_arith)
        requires
            o * t == d * g + rho,
            d == t - spread_bps,
    ;
    lemma_fundamental_div_mod_converse(g * spread_bps, t, g - o, rho);
    assert(spread_fee(g, spread_bps) == g - o);
}

} // verus!
