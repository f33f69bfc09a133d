//! A custodial, fixed-price two-asset exchange engine.
//!
//! A trusted administrator sets a scaled exchange price and a basis-point
//! spread for an asset pair; users then swap one custodied asset for the
//! other at that price, net of the spread. This crate holds the verified
//! core: the fixed-point pricing arithmetic (exact-in and exact-out, both
//! directions), the balance, slippage and expiration guards around it, and
//! the authorization rules for administrative updates. The host that owns
//! the real custody accounts performs the actual transfers; it consults
//! this engine for every amount and every accept/reject decision.

pub mod errors;
pub mod laws;
pub mod pricing;
pub mod state;
pub mod swap;
