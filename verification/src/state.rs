//! The per-pair record and the administrative operations on it.
//!
//! One `StateAccount` exists per ordered asset pair. Its administrator is
//! fixed at creation; only the administrator may overwrite the price or the
//! spread afterwards, and the engine reads the record on every swap.

use vstd::prelude::*;

use crate::errors::WasabiError;
use crate::pricing::SPREAD_SCALE_FACTOR;

verus! {

/// The mutable record for one asset pair. Identities are the host's compact
/// encoding of an account key: the engine only ever compares them for
/// equality.
#[derive(Clone, Copy, Debug, PartialEq, Eq, Structural)]
pub struct StateAccount {
    /// Identity of the only party allowed to mutate price and spread.
    /// Immutable after creation.
    pub authority: u64,
    /// Units of Y per unit of X, scaled up by `PRICE_SCALE_FACTOR`. Zero
    /// disables the pair: no swap can succeed until a price is set.
    pub x_to_y_scaled_price: u64,
    /// Fee kept by the exchange, in basis points.
    pub spread_bps: u64,
    /// Longest wall-clock duration, in the host clock's seconds, a swap may
    /// take to execute before it is rejected as expired.
    pub tx_exp_duration: i64,
}

impl StateAccount {
    /// Well-formedness of the record: the spread is a proper fraction of
    /// 100%. Equality to the scale would make exact-out pricing divide by
    /// zero, so creation and update both refuse it.
    pub open spec fn wf(self) -> bool {
        self.spread_bps < SPREAD_SCALE_FACTOR
    }
}

/// One-time creation of a pair record. The creating party becomes the
/// administrator; the price starts at zero, so the pair is born disabled and
/// stays so until the administrator sets a price.
pub fn init(authority: u64, spread_bps: u64) -> (s: StateAccount)
    requires
        spread_bps < SPREAD_SCALE_FACTOR,
    ensures
        s == (StateAccount {
            authority,
            x_to_y_scaled_price: 0,
            spread_bps,
            tx_exp_duration: 0,
        }),
        s.wf(),
{
    StateAccount { authority, x_to_y_scaled_price: 0, spread_bps, tx_exp_duration: 0 }
}

/// Overwrite the pair price. Refused with `Unauthorized`, and without any
/// mutation, unless the caller is the registered administrator. There is no
/// bounds check: the administrator may set the price back to zero and so
/// re-disable the pair.
pub fn update_price(state: &mut StateAccount, caller: u64, x_to_y_scaled_price: u64) -> (r: Result<
    (),
    WasabiError,
>)
    ensures
        caller == old(state).authority ==> r == Ok::<(), WasabiError>(()) && *final(state) == (
        StateAccount { x_to_y_scaled_price, ..*old(state) }),
        caller != old(state).authority ==> r == Err::<(), WasabiError>(WasabiError::Unauthorized)
            && *final(state) == *old(state),
        old(state).wf() ==> final(state).wf(),
{
    if caller != state.authority {
        return Err(WasabiError::Unauthorized);
    }
    state.x_to_y_scaled_price = x_to_y_scaled_price;
    Ok(())
}

/// Overwrite the price and/or the spread, each only if a new value is given;
/// an absent field leaves the record's field untouched. Same authorization
/// rule as `update_price`.
pub fn update_params(
    state: &mut StateAccount,
    caller: u64,
    x_to_y_scaled_price: Option<u64>,
    spread_bps: Option<u64>,
) -> (r: Result<(), WasabiError>)
    requires
        spread_bps matches Some(s) ==> s < SPREAD_SCALE_FACTOR,
    ensures
        caller == old(state).authority ==> r == Ok::<(), WasabiError>(()) && *final(state) == (
        StateAccount {
            x_to_y_scaled_price: match x_to_y_scaled_price {
                Some(p) => p,
                None => old(state).x_to_y_scaled_price,
            },
            spread_bps: match spread_bps {
                Some(s) => s,
                None => old(state).spread_bps,
            },
            ..*old(state)
        }),
        caller != old(state).authority ==> r == Err::<(), WasabiError>(WasabiError::Unauthorized)
            && *final(state) == *old(state),
        old(state).wf() ==> final(state).wf(),
{
    if caller != state.authority {
        return Err(WasabiError::Unauthorized);
    }
    if let Some(p) = x_to_y_scaled_price {
        state.x_to_y_scaled_price = p;
    }
    if let Some(s) = spread_bps {
        state.spread_bps = s;
    }
    Ok(())
}

} // verus!
