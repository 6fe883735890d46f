//! A peer-staked prediction-market settlement engine.
//!
//! Users stake value on one of several discrete outcomes of a question; after
//! the betting deadline a resolver fixes the true outcome and the escrowed
//! pool is redistributed to the winning side, minus protocol fees.  The
//! engine here is the settlement and escrow accounting core: the market
//! status state machine, the overflow-safe proportional payout arithmetic,
//! and the exactly-once claim and refund discipline.
//!
//! The host ledger (atomic debit/credit of value between parties), the clock,
//! and the account addressing scheme are external collaborators: every
//! operation takes the current time and the acting identity as plain values
//! and reports the value movements it decided on in its receipt, for the host
//! to carry out.

pub mod amounts;
pub mod betting;
pub mod errors;
pub mod events;
pub mod fees;
pub mod laws;
pub mod market;
pub mod refunds;
pub mod resolve;
pub mod settle;

use vstd::prelude::*;

verus! {

/// An addressable party on the host ledger.  The zero value stands for the
/// absent ("null") identity and is never a valid admin.
pub type Identity = u64;

/// Fee rates are expressed in basis points; this is the denominator
/// (10000 basis points = 100%).
pub const BPS_DENOMINATOR: u64 = 10000;

/// Largest admissible fee rate: 10000 basis points, i.e. the whole amount.
pub const MAX_BPS: u16 = 10000;

} // verus!
