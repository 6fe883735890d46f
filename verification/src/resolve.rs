//! Driving a market to its final outcome.
//!
//! The status state machine is written once; the market's [`Resolver`]
//! decides which calls may drive it.  An optimistic market goes
//! `Open -> Proposed` by any bettor's proposal, `Proposed -> Disputed` by
//! any bettor's challenge strictly before the window ends,
//! `Proposed -> Settled` by any bettor's finalize once the window has ended,
//! and `Disputed -> Settled` only by the admin's override.  An oracle market
//! goes `Open -> Settled` in a single authoritative price submission.
//!
//! Settlement charges the settlement fee on the whole pool out of the
//! escrow, under a balance-sufficiency check.

use vstd::prelude::*;

use crate::amounts::{fee_amount, fee_of, lemma_fee_of_bounds};
use crate::errors::Error;
use crate::events::{MarketSettled, OutcomeChallenged, OutcomeProposed};
use crate::fees::FeeSchedule;
use crate::market::{Market, MarketModel, Position, Resolver, Status};
use crate::Identity;

verus! {

/// Whether `p` is a live stake of `caller` in `m`: it belongs to the market
/// and to the caller, holds positive principal, and was not yet paid out or
/// refunded.  A refunded position no longer counts as standing in the
/// market.
pub open spec fn live_stake_of(p: Position, m: MarketModel, caller: Identity) -> bool {
    &&& p.market_id == m.id
    &&& p.user == caller
    &&& p.amount > 0
    &&& !p.claimed
}

/// The market every settlement path leaves behind: status `Settled`, the
/// final outcome fixed, the proposal fields cleared, the settlement fee gone
/// from the escrow, and the audit flag telling the admin override apart from
/// the unprivileged paths.
pub open spec fn settled_market(
    m: MarketModel,
    outcome: usize,
    settle_fee: u64,
    admin_resolved: bool,
) -> MarketModel {
    MarketModel {
        status: Status::Settled,
        final_outcome: Some(outcome),
        proposed_outcome: None,
        proposer: None,
        challenge_end_time: None,
        admin_resolved,
        escrow: (m.escrow - settle_fee) as u64,
        ..m
    }
}

/// The first failing check of [`propose_outcome`], or `None` when the call
/// succeeds.
pub open spec fn propose_outcome_err(
    m: MarketModel,
    p: Position,
    caller: Identity,
    outcome: usize,
    now: i64,
) -> Option<Error> {
    if !(m.resolver is Optimistic) {
        Some(Error::ResolverMismatch)
    } else if !(m.status is Open) {
        Some(Error::MarketNotOpen)
    } else if p.market_id != m.id {
        Some(Error::WrongMarket)
    } else if p.user != caller || p.amount == 0 || p.claimed {
        Some(Error::NotABettor)
    } else if outcome >= m.options.len() {
        Some(Error::InvalidOptionIndex)
    } else if now + m.challenge_window > i64::MAX {
        Some(Error::Overflow)
    } else {
        None
    }
}

/// The market a successful [`propose_outcome`] call leaves behind.
pub open spec fn proposed_market(
    m: MarketModel,
    caller: Identity,
    outcome: usize,
    now: i64,
) -> MarketModel {
    MarketModel {
        status: Status::Proposed,
        proposed_outcome: Some(outcome),
        proposer: Some(caller),
        challenge_end_time: Some((now + m.challenge_window) as i64),
        ..m
    }
}

/// Proposes `outcome` on an optimistic market.
///
/// Any caller holding a live stake may propose, at any time while the stored
/// status is `Open` — early resolution is permitted, and eligibility does
/// not depend on being on the eventual winning side.  Opens the challenge
/// window: it ends `challenge_window` after `now`, checked against
/// overflow.  No value moves.
pub fn propose_outcome(
    market: &mut Market,
    position: &Position,
    caller: Identity,
    outcome: usize,
    now: i64,
) -> (r: Result<OutcomeProposed, Error>)
    requires
        old(market)@.wf(),
    ensures
        final(market)@.wf(),
        r matches Ok(ev) ==> {
            &&& propose_outcome_err(old(market)@, *position, caller, outcome, now) is None
            &&& final(market)@ == proposed_market(old(market)@, caller, outcome, now)
            &&& ev == (OutcomeProposed {
                market_id: old(market)@.id,
                proposer: caller,
                outcome,
                challenge_end_time: (now + old(market)@.challenge_window) as i64,
            })
        },
        r matches Err(e) ==> {
            &&& Some(e) == propose_outcome_err(old(market)@, *position, caller, outcome, now)
            &&& *final(market) == *old(market)
        },
{
    if !matches!(market.resolver, Resolver::Optimistic) {
        return Err(Error::ResolverMismatch);
    }
    if !matches!(market.status, Status::Open) {
        return Err(Error::MarketNotOpen);
    }
    if position.market_id != market.id {
        return Err(Error::WrongMarket);
    }
    if position.user != caller || position.amount == 0 || position.claimed {
        return Err(Error::NotABettor);
    }
    if outcome >= market.options.len() {
        return Err(Error::InvalidOptionIndex);
    }
    if now > i64::MAX - market.challenge_window {
        return Err(Error::Overflow);
    }
    let end = now + market.challenge_window;
    market.status = Status::Proposed;
    market.proposed_outcome = Some(outcome);
    market.proposer = Some(caller);
    market.challenge_end_time = Some(end);
    proof {
        assert(market@ =~~= proposed_market(old(market)@, caller, outcome, now));
    }
    Ok(OutcomeProposed { market_id: market.id, proposer: caller, outcome, challenge_end_time: end })
}

/// The first failing check of [`challenge_outcome`], or `None` when the call
/// succeeds.
pub open spec fn challenge_outcome_err(
    m: MarketModel,
    p: Position,
    caller: Identity,
    now: i64,
) -> Option<Error> {
    if !(m.resolver is Optimistic) {
        Some(Error::ResolverMismatch)
    } else if !(m.status is Proposed) {
        Some(Error::MarketNotProposed)
    } else if p.market_id != m.id {
        Some(Error::WrongMarket)
    } else if p.user != caller || p.amount == 0 || p.claimed {
        Some(Error::NotABettor)
    } else if m.challenge_end_time matches Some(t) && now >= t {
        Some(Error::ChallengeWindowClosed)
    } else {
        None
    }
}

/// Challenges the proposal on an optimistic market.
///
/// Any caller holding a live stake may challenge, strictly before
/// `challenge_end_time`; at the end time or later the challenge fails
/// `ChallengeWindowClosed`.  A challenge carries no counter-proposal: it
/// only flips the status to `Disputed`, leaving settlement to the admin.  No
/// value moves.
pub fn challenge_outcome(
    market: &mut Market,
    position: &Position,
    caller: Identity,
    now: i64,
) -> (r: Result<OutcomeChallenged, Error>)
    requires
        old(market)@.wf(),
    ensures
        final(market)@.wf(),
        r matches Ok(ev) ==> {
            &&& challenge_outcome_err(old(market)@, *position, caller, now) is None
            &&& final(market)@ == (MarketModel { status: Status::Disputed, ..old(market)@ })
            &&& ev == (OutcomeChallenged { market_id: old(market)@.id, challenger: caller })
        },
        r matches Err(e) ==> {
            &&& Some(e) == challenge_outcome_err(old(market)@, *position, caller, now)
            &&& *final(market) == *old(market)
        },
{
    if !matches!(market.resolver, Resolver::Optimistic) {
        return Err(Error::ResolverMismatch);
    }
    if !matches!(market.status, Status::Proposed) {
        return Err(Error::MarketNotProposed);
    }
    if position.market_id != market.id {
        return Err(Error::WrongMarket);
    }
    if position.user != caller || position.amount == 0 || position.claimed {
        return Err(Error::NotABettor);
    }
    if let Some(end) = market.challenge_end_time {
        if now >= end {
            return Err(Error::ChallengeWindowClosed);
        }
    }
    market.status = Status::Disputed;
    proof {
        assert(market@ =~~= (MarketModel { status: Status::Disputed, ..old(market)@ }));
    }
    Ok(OutcomeChallenged { market_id: market.id, challenger: caller })
}

/// The first failing check of [`finalize_settlement`], or `None` when the
/// call succeeds.
pub open spec fn finalize_settlement_err(
    fs: FeeSchedule,
    m: MarketModel,
    p: Position,
    caller: Identity,
    now: i64,
) -> Option<Error> {
    if !(m.resolver is Optimistic) {
        Some(Error::ResolverMismatch)
    } else if !(m.status is Proposed) {
        Some(Error::MarketNotProposed)
    } else if p.market_id != m.id {
        Some(Error::WrongMarket)
    } else if p.user != caller || p.amount == 0 || p.claimed {
        Some(Error::NotABettor)
    } else if m.challenge_end_time matches Some(t) && now < t {
        Some(Error::ChallengeWindowNotEnded)
    } else if fee_of(m.total_pool as int, fs.settle_fee_bps) > m.escrow {
        Some(Error::InsufficientFunds)
    } else {
        None
    }
}

/// Finalizes an unchallenged proposal: once the challenge window has ended
/// with the market still `Proposed`, any caller holding a live stake may fix
/// the proposed outcome as final.  Charges the settlement fee on the whole
/// pool out of the escrow, under a balance-sufficiency check; the host owes
/// it to the fee sink, as the receipt records.
pub fn finalize_settlement(
    fs: &FeeSchedule,
    market: &mut Market,
    position: &Position,
    caller: Identity,
    now: i64,
) -> (r: Result<MarketSettled, Error>)
    requires
        fs.wf(),
        old(market)@.wf(),
    ensures
        final(market)@.wf(),
        r matches Ok(ev) ==> {
            &&& finalize_settlement_err(*fs, old(market)@, *position, caller, now) is None
            &&& final(market)@ == settled_market(old(market)@,
                old(market)@.proposed_outcome.unwrap(),
                fee_of(old(market)@.total_pool as int, fs.settle_fee_bps) as u64, false)
            &&& ev == (MarketSettled {
                market_id: old(market)@.id,
                settled_by: caller,
                outcome: old(market)@.proposed_outcome.unwrap(),
                settle_fee: fee_of(old(market)@.total_pool as int, fs.settle_fee_bps) as u64,
                admin_resolved: false,
                final_price: None,
            })
        },
        r matches Err(e) ==> {
            &&& Some(e) == finalize_settlement_err(*fs, old(market)@, *position, caller, now)
            &&& *final(market) == *old(market)
        },
{
    if !matches!(market.resolver, Resolver::Optimistic) {
        return Err(Error::ResolverMismatch);
    }
    if !matches!(market.status, Status::Proposed) {
        return Err(Error::MarketNotProposed);
    }
    if position.market_id != market.id {
        return Err(Error::WrongMarket);
    }
    if position.user != caller || position.amount == 0 || position.claimed {
        return Err(Error::NotABettor);
    }
    if let Some(end) = market.challenge_end_time {
        if now < end {
            return Err(Error::ChallengeWindowNotEnded);
        }
    }
    let settle_fee = fee_amount(market.total_pool, fs.settle_fee_bps);
    if settle_fee > market.escrow {
        return Err(Error::InsufficientFunds);
    }
    let outcome = match market.proposed_outcome {
        Some(k) => k,
        // unreachable: a proposed market always carries its proposal
        None => {
            proof {
                assert(false);
            }
            0
        },
    };
    market.status = Status::Settled;
    market.final_outcome = Some(outcome);
    market.proposed_outcome = None;
    market.proposer = None;
    market.challenge_end_time = None;
    market.admin_resolved = false;
    market.escrow = market.escrow - settle_fee;
    proof {
        assert(market@ =~~= settled_market(old(market)@, outcome, settle_fee, false));
    }
    Ok(MarketSettled {
        market_id: market.id,
        settled_by: caller,
        outcome,
        settle_fee,
        admin_resolved: false,
        final_price: None,
    })
}

/// The first failing check of [`resolve_dispute`], or `None` when the call
/// succeeds.
pub open spec fn resolve_dispute_err(
    fs: FeeSchedule,
    m: MarketModel,
    caller: Identity,
    outcome: usize,
) -> Option<Error> {
    if !(m.resolver is Optimistic) {
        Some(Error::ResolverMismatch)
    } else if !(m.status is Disputed) {
        Some(Error::MarketNotDisputed)
    } else if caller != fs.admin {
        Some(Error::NotAdmin)
    } else if outcome >= m.options.len() {
        Some(Error::InvalidOptionIndex)
    } else if fee_of(m.total_pool as int, fs.settle_fee_bps) > m.escrow {
        Some(Error::InsufficientFunds)
    } else {
        None
    }
}

/// Settles a disputed market by the admin's override — the sole privileged
/// settlement path, and the only way out of `Disputed`.  The chosen outcome
/// replaces the disputed proposal, the settlement fee is charged as on the
/// unprivileged path, and the receipt carries the audit flag recording that
/// the admin resolved it.
pub fn resolve_dispute(
    fs: &FeeSchedule,
    market: &mut Market,
    caller: Identity,
    outcome: usize,
) -> (r: Result<MarketSettled, Error>)
    requires
        fs.wf(),
        old(market)@.wf(),
    ensures
        final(market)@.wf(),
        r matches Ok(ev) ==> {
            &&& resolve_dispute_err(*fs, old(market)@, caller, outcome) is None
            &&& final(market)@ == settled_market(old(market)@, outcome,
                fee_of(old(market)@.total_pool as int, fs.settle_fee_bps) as u64, true)
            &&& ev == (MarketSettled {
                market_id: old(market)@.id,
                settled_by: caller,
                outcome,
                settle_fee: fee_of(old(market)@.total_pool as int, fs.settle_fee_bps) as u64,
                admin_resolved: true,
                final_price: None,
            })
        },
        r matches Err(e) ==> {
            &&& Some(e) == resolve_dispute_err(*fs, old(market)@, caller, outcome)
            &&& *final(market) == *old(market)
        },
{
    if !matches!(market.resolver, Resolver::Optimistic) {
        return Err(Error::ResolverMismatch);
    }
    if !matches!(market.status, Status::Disputed) {
        return Err(Error::MarketNotDisputed);
    }
    if caller != fs.admin {
        return Err(Error::NotAdmin);
    }
    if outcome >= market.options.len() {
        return Err(Error::InvalidOptionIndex);
    }
    let settle_fee = fee_amount(market.total_pool, fs.settle_fee_bps);
    if settle_fee > market.escrow {
        return Err(Error::InsufficientFunds);
    }
    market.status = Status::Settled;
    market.final_outcome = Some(outcome);
    market.proposed_outcome = None;
    market.proposer = None;
    market.challenge_end_time = None;
    market.admin_resolved = true;
    market.escrow = market.escrow - settle_fee;
    proof {
        assert(market@ =~~= settled_market(old(market)@, outcome, settle_fee, true));
    }
    Ok(MarketSettled {
        market_id: market.id,
        settled_by: caller,
        outcome,
        settle_fee,
        admin_resolved: true,
        final_price: None,
    })
}

/// The outcome an oracle submission picks: above the target price option 0
/// (the "call" side) wins, at or below it option 1 (the "put" side).
pub open spec fn oracle_outcome(target_price: u64, final_price: u64) -> usize {
    if final_price > target_price {
        0usize
    } else {
        1usize
    }
}

/// The first failing check of [`settle_with_price`], or `None` when the call
/// succeeds.
pub open spec fn settle_with_price_err(
    fs: FeeSchedule,
    m: MarketModel,
    caller: Identity,
    final_price: u64,
    now: i64,
) -> Option<Error> {
    if !(m.resolver is Oracle) {
        Some(Error::ResolverMismatch)
    } else if caller != m.resolver->oracle {
        Some(Error::UnauthorizedOracle)
    } else if !(m.status is Open) {
        Some(Error::MarketNotOpen)
    } else if now < m.resolve_time {
        Some(Error::ResolveTimeNotReached)
    } else if m.total_pool == 0 {
        Some(Error::NoParticipants)
    } else if final_price == 0 {
        Some(Error::InvalidPrice)
    } else if fee_of(m.total_pool as int, fs.settle_fee_bps) > m.escrow {
        Some(Error::InsufficientFunds)
    } else {
        None
    }
}

/// Settles an oracle market in a single authoritative price submission, the
/// whole resolution path of that variant: no proposal, no challenge period.
/// Only the market's designated oracle may call it, no earlier than the
/// resolve time, and only once someone has staked: an empty market has
/// nothing to settle (`NoParticipants`).  The submitted price is compared
/// against the target price to pick the winning side, and the settlement
/// fee is charged as on the optimistic paths.
pub fn settle_with_price(
    fs: &FeeSchedule,
    market: &mut Market,
    caller: Identity,
    final_price: u64,
    now: i64,
) -> (r: Result<MarketSettled, Error>)
    requires
        fs.wf(),
        old(market)@.wf(),
    ensures
        final(market)@.wf(),
        r matches Ok(ev) ==> {
            &&& settle_with_price_err(*fs, old(market)@, caller, final_price, now) is None
            &&& final(market)@ == settled_market(old(market)@,
                oracle_outcome(old(market)@.resolver->target_price, final_price),
                fee_of(old(market)@.total_pool as int, fs.settle_fee_bps) as u64, false)
            &&& ev == (MarketSettled {
                market_id: old(market)@.id,
                settled_by: caller,
                outcome: oracle_outcome(old(market)@.resolver->target_price, final_price),
                settle_fee: fee_of(old(market)@.total_pool as int, fs.settle_fee_bps) as u64,
                admin_resolved: false,
                final_price: Some(final_price),
            })
        },
        r matches Err(e) ==> {
            &&& Some(e) == settle_with_price_err(*fs, old(market)@, caller, final_price, now)
            &&& *final(market) == *old(market)
        },
{
    let (oracle, target_price) = match market.resolver {
        Resolver::Oracle { oracle, target_price } => (oracle, target_price),
        Resolver::Optimistic => {
            return Err(Error::ResolverMismatch);
        },
    };
    if caller != oracle {
        return Err(Error::UnauthorizedOracle);
    }
    if !matches!(market.status, Status::Open) {
        return Err(Error::MarketNotOpen);
    }
    if now < market.resolve_time {
        return Err(Error::ResolveTimeNotReached);
    }
    if market.total_pool == 0 {
        return Err(Error::NoParticipants);
    }
    if final_price == 0 {
        return Err(Error::InvalidPrice);
    }
    let settle_fee = fee_amount(market.total_pool, fs.settle_fee_bps);
    if settle_fee > market.escrow {
        return Err(Error::InsufficientFunds);
    }
    let outcome: usize = if final_price > target_price {
        0
    } else {
        1
    };
    market.status = Status::Settled;
    market.final_outcome = Some(outcome);
    market.proposed_outcome = None;
    market.proposer = None;
    market.challenge_end_time = None;
    market.admin_resolved = false;
    market.escrow = market.escrow - settle_fee;
    proof {
        lemma_fee_of_bounds(old(market)@.total_pool as int, fs.settle_fee_bps);
        assert(market@ =~~= settled_market(old(market)@, outcome, settle_fee, false));
    }
    Ok(MarketSettled {
        market_id: market.id,
        settled_by: caller,
        outcome,
        settle_fee,
        admin_resolved: false,
        final_price: Some(final_price),
    })
}

} // verus!
