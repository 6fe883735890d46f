//! Paying winners out of a settled market.
//!
//! The payout formula is one and the same whichever resolver settled the
//! market.  With final outcome `k`, the pool net of the settlement fee is
//! divided among the winning positions in proportion to their principal,
//! rounded down; the clearing fee is then taken from the winner's share, so
//! fee revenue scales with the share, not the principal.  Every step is
//! checked: an overflowing share and an escrow that cannot cover the
//! transfer each abort the claim with no partial payout.

use vstd::prelude::*;

use crate::amounts::{fee_amount, fee_of, lemma_fee_of_bounds, share_amount};
use crate::errors::Error;
use crate::events::PrizeClaimed;
use crate::fees::FeeSchedule;
use crate::market::{Market, MarketModel, Position};
use crate::Identity;

verus! {

/// What is left of the pool for winners once the settlement fee is taken:
/// the amount the claim formula divides proportionally.
pub open spec fn available_pool(fs: FeeSchedule, m: MarketModel) -> int {
    m.total_pool - fee_of(m.total_pool as int, fs.settle_fee_bps)
}

/// The stake held by the winning option of a settled market.
pub open spec fn winning_pool(m: MarketModel) -> u64
    recommends
        m.final_outcome is Some,
        m.wf(),
{
    m.option_totals[m.final_outcome.unwrap() as int]
}

/// A winning position's gross share: the available pool times its principal
/// over the winning pool, rounded down.
pub open spec fn prize_share(fs: FeeSchedule, m: MarketModel, p: Position) -> int
    recommends
        winning_pool(m) > 0,
{
    available_pool(fs, m) * p.amount / (winning_pool(m) as int)
}

/// The clearing fee on a winning position's gross share.
pub open spec fn prize_clearing_fee(fs: FeeSchedule, m: MarketModel, p: Position) -> int {
    fee_of(prize_share(fs, m, p), fs.clearing_fee_bps)
}

/// What a winning position is paid: its gross share net of the clearing
/// fee.
pub open spec fn prize_payout(fs: FeeSchedule, m: MarketModel, p: Position) -> int {
    prize_share(fs, m, p) - prize_clearing_fee(fs, m, p)
}

/// The first failing check of [`claim_prize`], or `None` when the call
/// succeeds.
pub open spec fn claim_prize_err(
    fs: FeeSchedule,
    m: MarketModel,
    p: Position,
    caller: Identity,
) -> Option<Error> {
    if !(m.status is Settled) {
        Some(Error::MarketNotSettled)
    } else if p.market_id != m.id {
        Some(Error::WrongMarket)
    } else if p.user != caller {
        Some(Error::NotRecipient)
    } else if p.claimed {
        Some(Error::AlreadyClaimed)
    } else if m.final_outcome matches Some(k) && p.option_index != k {
        Some(Error::NotWinner)
    } else if winning_pool(m) == 0 {
        Some(Error::NoWinners)
    } else if prize_share(fs, m, p) > u64::MAX {
        Some(Error::Overflow)
    } else if prize_share(fs, m, p) > m.escrow {
        Some(Error::InsufficientFunds)
    } else {
        None
    }
}

/// Pays a winning position exactly once.
///
/// The guard chain: the market must be settled, the position must belong to
/// this market and to the caller, must not have been claimed before
/// (`AlreadyClaimed` the second time, whatever the first path was), and must
/// sit on the final outcome (`NotWinner` otherwise); a winning pool of zero
/// fails `NoWinners`.  The claimed flag is set before any value is owed, and
/// the receipt orders the clearing fee ahead of the payout, so a replayed or
/// partially performed claim can never drain the escrow beyond the one
/// share.  The escrow is debited by the whole share: clearing fee to the fee
/// sink, the rest to the claimant.
pub fn claim_prize(
    fs: &FeeSchedule,
    market: &mut Market,
    position: &mut Position,
    caller: Identity,
) -> (r: Result<PrizeClaimed, Error>)
    requires
        fs.wf(),
        old(market)@.wf(),
    ensures
        final(market)@.wf(),
        r matches Ok(ev) ==> {
            &&& claim_prize_err(*fs, old(market)@, *old(position), caller) is None
            &&& final(market)@ == (MarketModel {
                escrow: (old(market)@.escrow - prize_share(*fs, old(market)@,
                *old(position))) as u64,
                ..old(market)@
            })
            &&& *final(position) == (Position { claimed: true, ..*old(position) })
            &&& ev == (PrizeClaimed {
                market_id: old(market)@.id,
                user: caller,
                payout: prize_payout(*fs, old(market)@, *old(position)) as u64,
                clearing_fee: prize_clearing_fee(*fs, old(market)@, *old(position)) as u64,
            })
            &&& ev.payout + ev.clearing_fee == prize_share(*fs, old(market)@, *old(position))
        },
        r matches Err(e) ==> {
            &&& Some(e) == claim_prize_err(*fs, old(market)@, *old(position), caller)
            &&& *final(market) == *old(market)
            &&& *final(position) == *old(position)
        },
{
    if !matches!(market.status, crate::market::Status::Settled) {
        return Err(Error::MarketNotSettled);
    }
    if position.market_id != market.id {
        return Err(Error::WrongMarket);
    }
    if position.user != caller {
        return Err(Error::NotRecipient);
    }
    if position.claimed {
        return Err(Error::AlreadyClaimed);
    }
    let outcome: usize = match market.final_outcome {
        Some(k) => k,
        // unreachable: a settled market always carries its outcome
        None => {
            proof {
                assert(false);
            }
            0
        },
    };
    if position.option_index != outcome {
        return Err(Error::NotWinner);
    }
    let winning = market.option_totals[outcome];
    if winning == 0 {
        return Err(Error::NoWinners);
    }
    proof {
        lemma_fee_of_bounds(market.total_pool as int, fs.settle_fee_bps);
    }
    let settle_fee = fee_amount(market.total_pool, fs.settle_fee_bps);
    let avail = market.total_pool - settle_fee;
    let share = match share_amount(avail, position.amount, winning) {
        Ok(s) => s,
        Err(e) => {
            return Err(e);
        },
    };
    if share > market.escrow {
        return Err(Error::InsufficientFunds);
    }
    let clearing_fee = fee_amount(share, fs.clearing_fee_bps);
    let payout = share - clearing_fee;
    position.claimed = true;
    market.escrow = market.escrow - share;
    proof {
        assert(market@ =~~= (MarketModel {
            escrow: (old(market)@.escrow - prize_share(*fs, old(market)@, *old(position))) as u64,
            ..old(market)@
        }));
    }
    Ok(PrizeClaimed { market_id: market.id, user: caller, payout, clearing_fee })
}

} // verus!
