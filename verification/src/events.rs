//! Receipts of successful operations.
//!
//! Every successful mutating call returns a structured receipt recording the
//! operation, the market, the acting identity and the resulting amounts.  The
//! amounts double as the engine's instructions to the host ledger: the host
//! carries out the value movements a receipt reports (a stake and a join fee
//! out of the bettor, a payout or refund out of the escrow, every fee into
//! the fee sink).  Receipts are for the host and for indexing, never for
//! control flow.

use vstd::prelude::*;

use crate::Identity;

verus! {

/// A market was created and assigned a fresh id.  The host moves
/// `create_fee` from the creator to the fee sink (nothing when zero).
#[derive(Clone, Copy, Debug, PartialEq, Eq, Structural)]
pub struct MarketCreated {
    /// The id the new market received.
    pub market_id: u64,
    /// The creating identity, charged the creation fee.
    pub creator: Identity,
    /// The flat creation fee due to the fee sink.
    pub create_fee: u64,
}

/// A stake was placed.  The host moves `amount` from the bettor into the
/// market's escrow and `join_fee` from the bettor to the fee sink (nothing
/// when zero).
#[derive(Clone, Copy, Debug, PartialEq, Eq, Structural)]
pub struct BetPlaced {
    /// The market staked on.
    pub market_id: u64,
    /// The staking identity.
    pub user: Identity,
    /// The option the stake rides on.
    pub option_index: usize,
    /// The principal moved into escrow.
    pub amount: u64,
    /// The join fee due to the fee sink, on top of the principal.
    pub join_fee: u64,
}

/// An outcome was proposed on an optimistic market; no value moves.
#[derive(Clone, Copy, Debug, PartialEq, Eq, Structural)]
pub struct OutcomeProposed {
    /// The market proposed on.
    pub market_id: u64,
    /// The proposing bettor.
    pub proposer: Identity,
    /// The proposed option index.
    pub outcome: usize,
    /// When the challenge window ends.
    pub challenge_end_time: i64,
}

/// A proposal was challenged; the market is disputed.  No value moves.
#[derive(Clone, Copy, Debug, PartialEq, Eq, Structural)]
pub struct OutcomeChallenged {
    /// The market challenged.
    pub market_id: u64,
    /// The challenging bettor.
    pub challenger: Identity,
}

/// A market settled.  The host moves `settle_fee` from the escrow to the fee
/// sink (nothing when zero).
#[derive(Clone, Copy, Debug, PartialEq, Eq, Structural)]
pub struct MarketSettled {
    /// The settled market.
    pub market_id: u64,
    /// The identity that settled it: the finalizing bettor, the oracle, or
    /// the admin.
    pub settled_by: Identity,
    /// The final outcome.
    pub outcome: usize,
    /// The settlement fee taken from the escrow, due to the fee sink.
    pub settle_fee: u64,
    /// Whether the admin's dispute override decided the outcome.
    pub admin_resolved: bool,
    /// The submitted price an oracle settlement was decided on; absent on
    /// the optimistic paths, which carry no price.
    pub final_price: Option<u64>,
}

/// A winner was paid.  The host moves `clearing_fee` from the escrow to the
/// fee sink first, then `payout` from the escrow to the claimant.
#[derive(Clone, Copy, Debug, PartialEq, Eq, Structural)]
pub struct PrizeClaimed {
    /// The market claimed against.
    pub market_id: u64,
    /// The winning claimant.
    pub user: Identity,
    /// What the claimant is paid, after the clearing fee.
    pub payout: u64,
    /// The clearing fee taken from the claimant's share, due to the fee sink.
    pub clearing_fee: u64,
}

/// A principal was refunded in full.  The host moves `amount` from the
/// escrow back to the position's owner; no fee is taken.
#[derive(Clone, Copy, Debug, PartialEq, Eq, Structural)]
pub struct RefundIssued {
    /// The market refunded against.
    pub market_id: u64,
    /// The refunded identity.
    pub user: Identity,
    /// The full principal paid back.
    pub amount: u64,
}

/// A market was cancelled by the admin; no value moves until the stakers
/// claim their refunds.
#[derive(Clone, Copy, Debug, PartialEq, Eq, Structural)]
pub struct MarketCancelled {
    /// The cancelled market.
    pub market_id: u64,
    /// The admin that cancelled it.
    pub admin: Identity,
}

/// An abandoned account's balance was swept to the admin.  The host moves
/// `recovered` from the named account to the admin.
#[derive(Clone, Copy, Debug, PartialEq, Eq, Structural)]
pub struct AccountClosed {
    /// The admin the balance went to.
    pub admin: Identity,
    /// The whole balance the account held.
    pub recovered: u64,
}

/// A market was force-closed with a batch of refunds, all-or-nothing.  The
/// host moves each listed position's principal from the escrow back to its
/// recipient.
#[derive(Clone, Copy, Debug, PartialEq, Eq, Structural)]
pub struct ForceClosed {
    /// The force-closed market.
    pub market_id: u64,
    /// The admin that closed it.
    pub admin: Identity,
    /// The sum of all principals paid back in the batch.
    pub total_refunded: u64,
}

} // verus!
