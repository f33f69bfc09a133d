//! The failure taxonomy surfaced to callers of the exchange engine.

use vstd::prelude::*;

verus! {

/// Every way an exchange operation can be refused. Each guard violation is
/// a distinct variant, and an operation that returns one of these has had no
/// effect at all: the engine never settles partially.
///
/// Authorization failures (`Unauthorized`) are kept apart from the economic
/// guards so that a client can tell "you are not allowed" from "your trade
/// parameters were not met".
#[derive(Clone, Copy, Debug, PartialEq, Eq, Structural)]
pub enum WasabiError {
    /// The caller of an administrative update is not the registered
    /// administrator of the pair.
    Unauthorized,
    /// An exact-in swap would deliver less than the caller's stated minimum.
    OutputTooSmall,
    /// An exact-out swap would require more input than the caller's stated
    /// maximum.
    InputTooLarge,
    /// An exact-out swap would require more input than the caller holds.
    UserInsufficientBalance,
    /// The operation took longer, wall-clock, than the pair's expiration
    /// window allows.
    ExpirationError,
    /// A scaling or spread computation left the 64-bit range; the engine
    /// refuses to truncate silently, since that would misprice the swap.
    ArithmeticOverflow,
    /// The pair's scaled price is zero: the pair has not been enabled (or
    /// has been deliberately re-disabled) by its administrator.
    PairNotInitialized,
    /// A custody transfer could not be completed; the one cause within the
    /// engine's model is an outbound vault that cannot cover the amount due.
    TransferFailed,
}

} // verus!
