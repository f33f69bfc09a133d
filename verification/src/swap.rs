//! The settlement engine: both swap directions over a pair's custody ledger.
//!
//! A `PairLedger` is the engine's view of everything one swap may touch: the
//! pair record and the four balances involved — the two custody vaults and
//! the calling user's two holdings. A swap either settles completely (input
//! leg into the vault, output leg out of the opposite vault) or fails with a
//! typed error and changes nothing; there is no partial settlement. The host
//! that owns the real accounts reads the resulting ledger and performs the
//! matching transfers, supplying the clock readings the expiration guard
//! compares.

use vstd::prelude::*;

use crate::errors::WasabiError;
use crate::pricing::{
    compute_net_output, compute_required_input, gross_output, required_input, spread_fee,
    taxed_input,
};
use crate::state::StateAccount;

verus! {

/// The resource group one swap operates on: the pair record, its two custody
/// vaults, and the calling user's balance of each asset. The host serializes
/// operations per pair, so one swap owns this group exclusively from start
/// to finish.
#[derive(Clone, Copy, Debug, PartialEq, Eq, Structural)]
pub struct PairLedger {
    /// The pair's price, spread, administrator and expiration window.
    pub state: StateAccount,
    /// Asset X held in custody by the exchange for this pair.
    pub vault_x: u64,
    /// Asset Y held in custody by the exchange for this pair.
    pub vault_y: u64,
    /// Asset X held by the calling user.
    pub user_x: u64,
    /// Asset Y held by the calling user.
    pub user_y: u64,
}

impl PairLedger {
    /// Well-formedness: the pair record is well-formed, and each asset's
    /// total across vault and user fits the balance type, so that moving
    /// funds between the two sides can never wrap.
    pub open spec fn wf(self) -> bool {
        &&& self.state.wf()
        &&& self.vault_x + self.user_x <= u64::MAX
        &&& self.vault_y + self.user_y <= u64::MAX
    }

    /// Total of asset X across the vault and the user.
    pub open spec fn total_x(self) -> int {
        self.vault_x + self.user_x
    }

    /// Total of asset Y across the vault and the user.
    pub open spec fn total_y(self) -> int {
        self.vault_y + self.user_y
    }

    /// Assemble a ledger from its parts.
    pub fn new(state: StateAccount, vault_x: u64, vault_y: u64, user_x: u64, user_y: u64) -> (l:
        PairLedger)
        requires
            state.wf(),
            vault_x + user_x <= u64::MAX,
            vault_y + user_y <= u64::MAX,
        ensures
            l == (PairLedger { state, vault_x, vault_y, user_x, user_y }),
            l.wf(),
    {
        PairLedger { state, vault_x, vault_y, user_x, user_y }
    }
}

/// The input an exact-in swap actually executes: the requested amount,
/// silently clamped down to the caller's balance of the input asset. A
/// caller who over-specifies swaps everything they have rather than failing.
pub open spec fn clamped_input(l: PairLedger, input_amount: u64, input_is_x: bool) -> u64 {
    let balance = if input_is_x {
        l.user_x
    } else {
        l.user_y
    };
    if input_amount > balance {
        balance
    } else {
        input_amount
    }
}

/// Whether the wall-clock span from `start_time` to `end_time` exceeds the
/// pair's expiration window. The two readings are taken by the host around
/// the operation itself, so this catches pathologically slow execution, not
/// a stale client intent.
pub open spec fn expired(l: PairLedger, start_time: i64, end_time: i64) -> bool {
    end_time - start_time > l.state.tx_exp_duration
}

/// The complete outcome of an exact-in swap on ledger `l`, in guard order:
/// a zero price disables the pair; the clamped input is converted and the
/// spread taken from the output; the net output must reach the caller's
/// minimum; the outbound vault must cover it; and the operation must not
/// have outlived the expiration window.
pub open spec fn exact_in_outcome(
    l: PairLedger,
    input_amount: u64,
    input_is_x: bool,
    min_out_amount: u64,
    start_time: i64,
    end_time: i64,
) -> Result<u64, WasabiError> {
    let price = l.state.x_to_y_scaled_price as int;
    let spread = l.state.spread_bps as int;
    if price == 0 {
        Err(WasabiError::PairNotInitialized)
    } else {
        let executed = clamped_input(l, input_amount, input_is_x) as int;
        let gross = gross_output(price, executed, input_is_x);
        if gross > u64::MAX {
            Err(WasabiError::ArithmeticOverflow)
        } else {
            let net = gross - spread_fee(gross, spread);
            let vault_out = if input_is_x {
                l.vault_y as int
            } else {
                l.vault_x as int
            };
            if net < min_out_amount {
                Err(WasabiError::OutputTooSmall)
            } else if net > vault_out {
                Err(WasabiError::TransferFailed)
            } else if expired(l, start_time, end_time) {
                Err(WasabiError::ExpirationError)
            } else {
                Ok(net as u64)
            }
        }
    }
}

/// The complete outcome of an exact-out swap on ledger `l`, in guard order:
/// a zero price disables the pair; the desired output is converted and
/// grossed up for the spread, refusing either step if it leaves 64 bits; the
/// required input must not exceed the caller's stated maximum nor their
/// balance (no clamping here — the caller asked for an exact output, so the
/// input is a hard requirement); the outbound vault must cover the output;
/// and the operation must not have outlived the expiration window.
pub open spec fn exact_out_outcome(
    l: PairLedger,
    output_amount: u64,
    output_is_x: bool,
    max_in_amount: u64,
    start_time: i64,
    end_time: i64,
) -> Result<u64, WasabiError> {
    let price = l.state.x_to_y_scaled_price as int;
    let spread = l.state.spread_bps as int;
    if price == 0 {
        Err(WasabiError::PairNotInitialized)
    } else {
        let taxed = taxed_input(price, output_amount as int, output_is_x);
        let needed = required_input(price, output_amount as int, output_is_x, spread);
        if taxed > u64::MAX || needed > u64::MAX {
            Err(WasabiError::ArithmeticOverflow)
        } else {
            let user_in = if output_is_x {
                l.user_y as int
            } else {
                l.user_x as int
            };
            let vault_out = if output_is_x {
                l.vault_x as int
            } else {
                l.vault_y as int
            };
            if needed > max_in_amount {
                Err(WasabiError::InputTooLarge)
            } else if needed > user_in {
                Err(WasabiError::UserInsufficientBalance)
            } else if output_amount > vault_out {
                Err(WasabiError::TransferFailed)
            } else if expired(l, start_time, end_time) {
                Err(WasabiError::ExpirationError)
            } else {
                Ok(needed as u64)
            }
        }
    }
}

/// Swap an exact input for whatever output the price and spread yield.
///
/// On success the returned net output has moved from the opposite vault to
/// the user and the executed (clamped) input from the user to its vault, in
/// one atomic unit; on any error the ledger is exactly as it was. The pair
/// record is never touched, and each asset's total across vault and user is
/// conserved — the spread is not removed from the ledger, it merely stays in
/// the vault.
pub fn swap_exact_in(
    l: &mut PairLedger,
    input_amount: u64,
    input_is_x: bool,
    min_out_amount: u64,
    start_time: i64,
    end_time: i64,
) -> (r: Result<u64, WasabiError>)
    requires
        old(l).wf(),
    ensures
        r == exact_in_outcome(*old(l), input_amount, input_is_x, min_out_amount, start_time, end_time),
        final(l).wf(),
        final(l).state == old(l).state,
        final(l).total_x() == old(l).total_x(),
        final(l).total_y() == old(l).total_y(),
        r is Err ==> *final(l) == *old(l),
        r matches Ok(net) ==> {
            let executed = clamped_input(*old(l), input_amount, input_is_x);
            if input_is_x {
                &&& final(l).user_x == old(l).user_x - executed
                &&& final(l).vault_x == old(l).vault_x + executed
                &&& final(l).vault_y == old(l).vault_y - net
                &&& final(l).user_y == old(l).user_y + net
            } else {
                &&& final(l).user_y == old(l).user_y - executed
                &&& final(l).vault_y == old(l).vault_y + executed
                &&& final(l).vault_x == old(l).vault_x - net
                &&& final(l).user_x == old(l).user_x + net
            }
        },
{
    let price = l.state.x_to_y_scaled_price;
    if price == 0 {
        return Err(WasabiError::PairNotInitialized);
    }
    let user_in_balance = if input_is_x {
        l.user_x
    } else {
        l.user_y
    };
    let executed = if input_amount > user_in_balance {
        user_in_balance
    } else {
        input_amount
    };
    let net = match compute_net_output(price, l.state.spread_bps, executed, input_is_x) {
        Ok(n) => n,
        Err(e) => {
            return Err(e);
        },
    };
    if net < min_out_amount {
        return Err(WasabiError::OutputTooSmall);
    }
    let vault_out_balance = if input_is_x {
        l.vault_y
    } else {
        l.vault_x
    };
    if net > vault_out_balance {
        return Err(WasabiError::TransferFailed);
    }
    if (end_time as i128) - (start_time as i128) > (l.state.tx_exp_duration as i128) {
        return Err(WasabiError::ExpirationError);
    }
    if input_is_x {
        l.user_x = l.user_x - executed;
        l.vault_x = l.vault_x + executed;
        l.vault_y = l.vault_y - net;
        l.user_y = l.user_y + net;
    } else {
        l.user_y = l.user_y - executed;
        l.vault_y = l.vault_y + executed;
        l.vault_x = l.vault_x - net;
        l.user_x = l.user_x + net;
    }
    Ok(net)
}

/// Swap whatever input the price and spread require for an exact output.
///
/// On success the returned required input has moved from the user to its
/// vault and the exact `output_amount` from the opposite vault to the user,
/// in one atomic unit; on any error the ledger is exactly as it was. The
/// pair record is never touched, and each asset's total across vault and
/// user is conserved.
pub fn swap_exact_out(
    l: &mut PairLedger,
    output_amount: u64,
    output_is_x: bool,
    max_in_amount: u64,
    start_time: i64,
    end_time: i64,
) -> (r: Result<u64, WasabiError>)
    requires
        old(l).wf(),
    ensures
        r == exact_out_outcome(*old(l), output_amount, output_is_x, max_in_amount, start_time, end_time),
        final(l).wf(),
        final(l).state == old(l).state,
        final(l).total_x() == old(l).total_x(),
        final(l).total_y() == old(l).total_y(),
        r is Err ==> *final(l) == *old(l),
        r matches Ok(needed) ==> if output_is_x {
            &&& final(l).user_y == old(l).user_y - needed
            &&& final(l).vault_y == old(l).vault_y + needed
            &&& final(l).vault_x == old(l).vault_x - output_amount
            &&& final(l).user_x == old(l).user_x + output_amount
        } else {
            &&& final(l).user_x == old(l).user_x - needed
            &&& final(l).vault_x == old(l).vault_x + needed
            &&& final(l).vault_y == old(l).vault_y - output_amount
            &&& final(l).user_y == old(l).user_y + output_amount
        },
{
    let price = l.state.x_to_y_scaled_price;
    if price == 0 {
        return Err(WasabiError::PairNotInitialized);
    }
    let needed = match compute_required_input(price, l.state.spread_bps, output_amount, output_is_x) {
        Ok(n) => n,
        Err(e) => {
            return Err(e);
        },
    };
    if needed > max_in_amount {
        return Err(WasabiError::InputTooLarge);
    }
    let user_in_balance = if output_is_x {
        l.user_y
    } else {
        l.user_x
    };
    if needed > user_in_balance {
        return Err(WasabiError::UserInsufficientBalance);
    }
    let vault_out_balance = if output_is_x {
        l.vault_x
    } else {
        l.vault_y
    };
    if output_amount > vault_out_balance {
        return Err(WasabiError::TransferFailed);
    }
    if (end_time as i128) - (start_time as i128) > (l.state.tx_exp_duration as i128) {
        return Err(WasabiError::ExpirationError);
    }
    if output_is_x {
        l.user_y = l.user_y - needed;
        l.vault_y = l.vault_y + needed;
        l.vault_x = l.vault_x - output_amount;
        l.user_x = l.user_x + output_amount;
    } else {
        l.user_x = l.user_x - needed;
        l.vault_x = l.vault_x + needed;
        l.vault_y = l.vault_y - output_amount;
        l.user_y = l.user_y + output_amount;
    }
    Ok(needed)
}

} // verus!
