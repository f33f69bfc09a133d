//! Fixed-point pricing arithmetic for the exchange.
//!
//! A pair's price is `x_to_y_scaled_price`: the value of one unit of asset X
//! in units of asset Y, multiplied by `PRICE_SCALE_FACTOR` so that fractional
//! rates survive integer arithmetic. The spread is a fee in basis points
//! (`SPREAD_SCALE_FACTOR` = 100%). All division truncates; every computation
//! widens to 128 bits so that intermediate products cannot wrap, and any
//! result that leaves the 64-bit range is reported as an overflow rather
//! than truncated.

use vstd::prelude::*;

use crate::errors::WasabiError;

verus! {

/// Fixed-point scale of the pair price: a stored price of `PRICE_SCALE_FACTOR`
/// means one unit of X trades for exactly one unit of Y.
pub const PRICE_SCALE_FACTOR: u64 = 1_000_000;

/// Basis-point scale of the spread: `SPREAD_SCALE_FACTOR` basis points are 100%.
pub const SPREAD_SCALE_FACTOR: u64 = 10_000;

/// Value of `amount` units of one asset in units of the other, under the
/// scaled price `price` (units of Y per unit of X, times `PRICE_SCALE_FACTOR`),
/// truncating. `from_x` says which asset `amount` is denominated in.
pub open spec fn convert_amount(price: int, amount: int, from_x: bool) -> int
    recommends
        price > 0,
        amount >= 0,
{
    if from_x {
        amount * price / (PRICE_SCALE_FACTOR as int)
    } else {
        amount * (PRICE_SCALE_FACTOR as int) / price
    }
}

/// The fee the exchange keeps out of `amount`, at `spread_bps` basis points,
/// truncating.
pub open spec fn spread_fee(amount: int, spread_bps: int) -> int
    recommends
        amount >= 0,
        0 <= spread_bps < SPREAD_SCALE_FACTOR,
{
    amount * spread_bps / (SPREAD_SCALE_FACTOR as int)
}

/// Gross counter-amount of an exact-in swap before the fee: the input
/// converted at the pair price.
pub open spec fn gross_output(price: int, input_amount: int, input_is_x: bool) -> int
    recommends
        price > 0,
        input_amount >= 0,
{
    convert_amount(price, input_amount, input_is_x)
}

/// Net output of an exact-in swap: the gross counter-amount less the spread,
/// which exact-in charges on the output side.
pub open spec fn net_output(price: int, input_amount: int, input_is_x: bool, spread_bps: int) -> int
    recommends
        price > 0,
        input_amount >= 0,
        0 <= spread_bps < SPREAD_SCALE_FACTOR,
{
    let gross = gross_output(price, input_amount, input_is_x);
    gross - spread_fee(gross, spread_bps)
}

/// Input an exact-out swap would need before the fee: the desired output
/// converted at the pair price. `output_is_x` says which asset the caller
/// wants out; the input is the other one, so the conversion runs from the
/// output asset.
pub open spec fn taxed_input(price: int, output_amount: int, output_is_x: bool) -> int
    recommends
        price > 0,
        output_amount >= 0,
{
    convert_amount(price, output_amount, output_is_x)
}

/// Input an exact-out swap actually requires: the pre-fee input grossed up
/// so that the fee, conceptually netted back out, still leaves the promised
/// output whole. Exact-out charges the spread on the input side.
pub open spec fn required_input(price: int, output_amount: int, output_is_x: bool, spread_bps: int) -> int
    recommends
        price > 0,
        output_amount >= 0,
        0 <= spread_bps < SPREAD_SCALE_FACTOR,
{
    taxed_input(price, output_amount, output_is_x) * (SPREAD_SCALE_FACTOR as int)
        / (SPREAD_SCALE_FACTOR as int - spread_bps)
}

/// Net output delivered by an exact-in swap of `input_amount`, or
/// `ArithmeticOverflow` exactly when the gross counter-amount leaves the
/// 64-bit range. The net amount never exceeds the gross one, so overflow is
/// decided on the gross amount alone.
pub fn compute_net_output(price: u64, spread_bps: u64, input_amount: u64, input_is_x: bool) -> (r:
    Result<u64, WasabiError>)
    requires
        price > 0,
        spread_bps < SPREAD_SCALE_FACTOR,
    ensures
        gross_output(price as int, input_amount as int, input_is_x) <= u64::MAX <==> r is Ok,
        r matches Ok(net) ==> net == net_output(
            price as int,
            input_amount as int,
            input_is_x,
            spread_bps as int,
        ),
        r matches Err(e) ==> e == WasabiError::ArithmeticOverflow,
{
    let wide_gross: u128 = if input_is_x {
        assert((input_amount as int) * (price as int) <= u128::MAX) by (nonlinear_arith)
            requires
                input_amount <= u64::MAX,
                price <= u64::MAX,
        ;
        (input_amount as u128) * (price as u128) / (PRICE_SCALE_FACTOR as u128)
    } else {
        assert((input_amount as int) * (PRICE_SCALE_FACTOR as int) <= u128::MAX) by (nonlinear_arith)
            requires
                input_amount <= u64::MAX,
        ;
        (input_amount as u128) * (PRICE_SCALE_FACTOR as u128) / (price as u128)
    };
    if wide_gross > u64::MAX as u128 {
        return Err(WasabiError::ArithmeticOverflow);
    }
    let gross: u64 = wide_gross as u64;
    assert((gross as int) * (spread_bps as int) <= u128::MAX) by (nonlinear_arith)
        requires
            gross <= u64::MAX,
            spread_bps < SPREAD_SCALE_FACTOR,
    ;
    let fee: u128 = (gross as u128) * (spread_bps as u128) / (SPREAD_SCALE_FACTOR as u128);
    assert(fee <= gross) by (nonlinear_arith)
        requires
            fee == (gross as int) * (spread_bps as int) / (SPREAD_SCALE_FACTOR as int),
            spread_bps < SPREAD_SCALE_FACTOR,
            gross >= 0,
    ;
    Ok(gross - fee as u64)
}

/// Input an exact-out swap of `output_amount` requires, or
/// `ArithmeticOverflow` exactly when either the pre-fee input or the
/// grossed-up input leaves the 64-bit range.
pub fn compute_required_input(price: u64, spread_bps: u64, output_amount: u64, output_is_x: bool) -> (r:
    Result<u64, WasabiError>)
    requires
        price > 0,
        spread_bps < SPREAD_SCALE_FACTOR,
    ensures
        (taxed_input(price as int, output_amount as int, output_is_x) <= u64::MAX
            && required_input(price as int, output_amount as int, output_is_x, spread_bps as int)
            <= u64::MAX) <==> r is Ok,
        r matches Ok(needed) ==> needed == required_input(
            price as int,
            output_amount as int,
            output_is_x,
            spread_bps as int,
        ),
        r matches Err(e) ==> e == WasabiError::ArithmeticOverflow,
{
    let wide_taxed: u128 = if output_is_x {
        assert((output_amount as int) * (price as int) <= u128::MAX) by (nonlinear_arith)
            requires
                output_amount <= u64::MAX,
                price <= u64::MAX,
        ;
        (output_amount as u128) * (price as u128) / (PRICE_SCALE_FACTOR as u128)
    } else {
        assert((output_amount as int) * (PRICE_SCALE_FACTOR as int) <= u128::MAX)
            by (nonlinear_arith)
            requires
                output_amount <= u64::MAX,
        ;
        (output_amount as u128) * (PRICE_SCALE_FACTOR as u128) / (price as u128)
    };
    if wide_taxed > u64::MAX as u128 {
        return Err(WasabiError::ArithmeticOverflow);
    }
    assert(wide_taxed * (SPREAD_SCALE_FACTOR as int) <= u128::MAX) by (nonlinear_arith)
        requires
            wide_taxed <= u64::MAX,
    ;
    let wide_required: u128 = wide_taxed * (SPREAD_SCALE_FACTOR as u128) / ((SPREAD_SCALE_FACTOR
        - spread_bps) as u128);
    if wide_required > u64::MAX as u128 {
        return Err(WasabiError::ArithmeticOverflow);
    }
    Ok(wide_required as u64)
}

} // verus!
