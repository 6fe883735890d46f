//! Giving principal back: timeout refunds, admin cancellation, and the
//! all-or-nothing batch force-close.
//!
//! Refunds pay back exactly the position's principal, with no fee taken, and
//! are guarded by the same one-shot `claimed` flag as prize claims: whatever
//! the first successful path was, the second attempt fails `AlreadyClaimed`.

use vstd::prelude::*;

use crate::errors::Error;
use crate::events::{AccountClosed, ForceClosed, MarketCancelled, RefundIssued};
use crate::fees::FeeSchedule;
use crate::market::{Market, MarketModel, Position, Status, GRACE_PERIOD};
use crate::Identity;

verus! {

/// The first failing check of [`refund_expired`], or `None` when the call
/// succeeds.
pub open spec fn refund_expired_err(
    m: MarketModel,
    p: Position,
    caller: Identity,
    now: i64,
) -> Option<Error> {
    if p.market_id != m.id {
        Some(Error::WrongMarket)
    } else if p.user != caller {
        Some(Error::NotRecipient)
    } else if p.claimed {
        Some(Error::AlreadyClaimed)
    } else if !(m.status is Open) {
        Some(Error::MarketNotOpen)
    } else if m.resolve_time + GRACE_PERIOD > i64::MAX {
        Some(Error::Overflow)
    } else if now < m.resolve_time + GRACE_PERIOD {
        Some(Error::GracePeriodNotElapsed)
    } else if p.amount == 0 {
        Some(Error::InvalidAmount)
    } else if p.amount > m.escrow {
        Some(Error::InsufficientFunds)
    } else {
        None
    }
}

/// Refunds a position of an abandoned market: once the grace period after
/// the resolve time has elapsed with the stored status still `Open` — that
/// is, no one ever proposed an outcome — the owner reclaims the full
/// principal, no fee taken.
///
/// The market's status and counters are left as they are; only the escrow
/// shrinks and the position is marked claimed.  A refunded position no
/// longer counts as a live stake, so a market whose positions were all
/// refunded this way can no longer be proposed on.
pub fn refund_expired(
    market: &mut Market,
    position: &mut Position,
    caller: Identity,
    now: i64,
) -> (r: Result<RefundIssued, Error>)
    requires
        old(market)@.wf(),
    ensures
        final(market)@.wf(),
        r matches Ok(ev) ==> {
            &&& refund_expired_err(old(market)@, *old(position), caller, now) is None
            &&& final(market)@ == (MarketModel {
                escrow: (old(market)@.escrow - old(position).amount) as u64,
                ..old(market)@
            })
            &&& *final(position) == (Position { claimed: true, ..*old(position) })
            &&& ev == (RefundIssued {
                market_id: old(market)@.id,
                user: caller,
                amount: old(position).amount,
            })
        },
        r matches Err(e) ==> {
            &&& Some(e) == refund_expired_err(old(market)@, *old(position), caller, now)
            &&& *final(market) == *old(market)
            &&& *final(position) == *old(position)
        },
{
    if position.market_id != market.id {
        return Err(Error::WrongMarket);
    }
    if position.user != caller {
        return Err(Error::NotRecipient);
    }
    if position.claimed {
        return Err(Error::AlreadyClaimed);
    }
    if !matches!(market.status, Status::Open) {
        return Err(Error::MarketNotOpen);
    }
    if market.resolve_time > i64::MAX - GRACE_PERIOD {
        return Err(Error::Overflow);
    }
    if now < market.resolve_time + GRACE_PERIOD {
        return Err(Error::GracePeriodNotElapsed);
    }
    if position.amount == 0 {
        return Err(Error::InvalidAmount);
    }
    if position.amount > market.escrow {
        return Err(Error::InsufficientFunds);
    }
    let amount = position.amount;
    position.claimed = true;
    market.escrow = market.escrow - amount;
    proof {
        assert(market@ =~~= (MarketModel {
            escrow: (old(market)@.escrow - old(position).amount) as u64,
            ..old(market)@
        }));
    }
    Ok(RefundIssued { market_id: market.id, user: caller, amount })
}

/// The first failing check of [`admin_cancel_market`], or `None` when the
/// call succeeds.
pub open spec fn admin_cancel_market_err(
    fs: FeeSchedule,
    m: MarketModel,
    caller: Identity,
) -> Option<Error> {
    if caller != fs.admin {
        Some(Error::NotAdmin)
    } else if m.status is Settled {
        Some(Error::MarketAlreadySettled)
    } else if m.status is Cancelled {
        Some(Error::MarketAlreadyCancelled)
    } else {
        None
    }
}

/// Cancels a market from any non-terminal state, admin-only and
/// unconditional on time; a market that already settled is beyond recall
/// (`MarketAlreadySettled`).  No value moves here: the stakers claim their
/// refunds one by one through [`claim_cancelled_refund`].
pub fn admin_cancel_market(fs: &FeeSchedule, market: &mut Market, caller: Identity) -> (r: Result<
    MarketCancelled,
    Error,
>)
    requires
        fs.wf(),
        old(market)@.wf(),
    ensures
        final(market)@.wf(),
        r matches Ok(ev) ==> {
            &&& admin_cancel_market_err(*fs, old(market)@, caller) is None
            &&& final(market)@ == (MarketModel {
                status: Status::Cancelled,
                proposed_outcome: None,
                proposer: None,
                challenge_end_time: None,
                ..old(market)@
            })
            &&& ev == (MarketCancelled { market_id: old(market)@.id, admin: caller })
        },
        r matches Err(e) ==> {
            &&& Some(e) == admin_cancel_market_err(*fs, old(market)@, caller)
            &&& *final(market) == *old(market)
        },
{
    if caller != fs.admin {
        return Err(Error::NotAdmin);
    }
    if matches!(market.status, Status::Settled) {
        return Err(Error::MarketAlreadySettled);
    }
    if matches!(market.status, Status::Cancelled) {
        return Err(Error::MarketAlreadyCancelled);
    }
    market.status = Status::Cancelled;
    market.proposed_outcome = None;
    market.proposer = None;
    market.challenge_end_time = None;
    proof {
        assert(market@ =~~= (MarketModel {
            status: Status::Cancelled,
            proposed_outcome: None,
            proposer: None,
            challenge_end_time: None,
            ..old(market)@
        }));
    }
    Ok(MarketCancelled { market_id: market.id, admin: caller })
}

/// The first failing check of [`claim_cancelled_refund`], or `None` when the
/// call succeeds.
pub open spec fn claim_cancelled_refund_err(
    m: MarketModel,
    p: Position,
    caller: Identity,
) -> Option<Error> {
    if p.market_id != m.id {
        Some(Error::WrongMarket)
    } else if p.user != caller {
        Some(Error::NotRecipient)
    } else if p.claimed {
        Some(Error::AlreadyClaimed)
    } else if !(m.status is Cancelled) {
        Some(Error::MarketNotCancelled)
    } else if p.amount == 0 {
        Some(Error::InvalidAmount)
    } else if p.amount > m.escrow {
        Some(Error::InsufficientFunds)
    } else {
        None
    }
}

/// Refunds a position of a cancelled market, unconditional on time: the
/// owner reclaims the full principal, no fee taken, exactly once.
pub fn claim_cancelled_refund(
    market: &mut Market,
    position: &mut Position,
    caller: Identity,
) -> (r: Result<RefundIssued, Error>)
    requires
        old(market)@.wf(),
    ensures
        final(market)@.wf(),
        r matches Ok(ev) ==> {
            &&& claim_cancelled_refund_err(old(market)@, *old(position), caller) is None
            &&& final(market)@ == (MarketModel {
                escrow: (old(market)@.escrow - old(position).amount) as u64,
                ..old(market)@
            })
            &&& *final(position) == (Position { claimed: true, ..*old(position) })
            &&& ev == (RefundIssued {
                market_id: old(market)@.id,
                user: caller,
                amount: old(position).amount,
            })
        },
        r matches Err(e) ==> {
            &&& Some(e) == claim_cancelled_refund_err(old(market)@, *old(position), caller)
            &&& *final(market) == *old(market)
            &&& *final(position) == *old(position)
        },
{
    if position.market_id != market.id {
        return Err(Error::WrongMarket);
    }
    if position.user != caller {
        return Err(Error::NotRecipient);
    }
    if position.claimed {
        return Err(Error::AlreadyClaimed);
    }
    if !matches!(market.status, Status::Cancelled) {
        return Err(Error::MarketNotCancelled);
    }
    if position.amount == 0 {
        return Err(Error::InvalidAmount);
    }
    if position.amount > market.escrow {
        return Err(Error::InsufficientFunds);
    }
    let amount = position.amount;
    position.claimed = true;
    market.escrow = market.escrow - amount;
    proof {
        assert(market@ =~~= (MarketModel {
            escrow: (old(market)@.escrow - old(position).amount) as u64,
            ..old(market)@
        }));
    }
    Ok(RefundIssued { market_id: market.id, user: caller, amount })
}

/// Why one (position, recipient) pair of a refund batch cannot stand, or
/// `None` when it may: it must belong to this market, belong to the named
/// recipient, and not be claimed yet.
pub open spec fn batch_pair_err(m: MarketModel, p: Position, recipient: Identity) -> Option<
    Error,
> {
    if p.market_id != m.id {
        Some(Error::WrongMarket)
    } else if p.user != recipient {
        Some(Error::NotRecipient)
    } else if p.claimed {
        Some(Error::AlreadyClaimed)
    } else {
        None
    }
}

/// The first failure a front-to-back scan of the batch meets from index `k`
/// on, with `acc` already accumulated: an invalid pair, a pair whose owner
/// already appeared earlier in the batch (that position is claimed by the
/// time this pair is processed), a zero principal, or an overflowing running
/// total.
pub open spec fn batch_scan_err(
    m: MarketModel,
    ps: Seq<Position>,
    rs: Seq<Identity>,
    k: int,
    acc: int,
) -> Option<Error>
    decreases ps.len() - k,
{
    if k < 0 || k >= ps.len() || ps.len() != rs.len() {
        None
    } else if batch_pair_err(m, ps[k], rs[k]) is Some {
        batch_pair_err(m, ps[k], rs[k])
    } else if exists|j: int| 0 <= j < k && ps[j].user == ps[k].user {
        Some(Error::AlreadyClaimed)
    } else if ps[k].amount == 0 {
        Some(Error::InvalidAmount)
    } else if acc + ps[k].amount > u64::MAX {
        Some(Error::Overflow)
    } else {
        batch_scan_err(m, ps, rs, k + 1, acc + ps[k].amount)
    }
}

/// The sum of the principals of the batch from index `k` on.
pub open spec fn batch_total_from(ps: Seq<Position>, k: int) -> int
    decreases ps.len() - k,
{
    if k < 0 || k >= ps.len() {
        0
    } else {
        ps[k].amount + batch_total_from(ps, k + 1)
    }
}

/// The sum of the principals of the whole batch.
pub open spec fn batch_total(ps: Seq<Position>) -> int {
    batch_total_from(ps, 0)
}

/// The first failing check of [`admin_force_close`], or `None` when the
/// call succeeds.
pub open spec fn admin_force_close_err(
    fs: FeeSchedule,
    m: MarketModel,
    ps: Seq<Position>,
    rs: Seq<Identity>,
    caller: Identity,
) -> Option<Error> {
    if caller != fs.admin {
        Some(Error::NotAdmin)
    } else if m.status is Settled {
        Some(Error::MarketAlreadySettled)
    } else if m.status is Cancelled {
        Some(Error::MarketAlreadyCancelled)
    } else if ps.len() != rs.len() {
        Some(Error::InvalidBatch)
    } else if batch_scan_err(m, ps, rs, 0, 0) is Some {
        batch_scan_err(m, ps, rs, 0, 0)
    } else if batch_total(ps) > m.escrow {
        Some(Error::InsufficientFunds)
    } else {
        None
    }
}

/// Force-closes a market with a batch of refunds, as one all-or-nothing
/// operation: admin-only, over an ordered list of (position, recipient)
/// pairs.  Every pair is validated — belongs to this market, belongs to the
/// named recipient, not yet claimed (a recipient listed twice counts as
/// claimed from its second pair on), positive principal — and any single
/// invalid pair, an overflowing total or an escrow that cannot cover the
/// whole batch aborts the entire call with nothing changed; there is no
/// partial-batch success.  On success every listed position is marked
/// claimed, the escrow is debited by the whole total, and the market is
/// cancelled.
pub fn admin_force_close(
    fs: &FeeSchedule,
    market: &mut Market,
    positions: &mut Vec<Position>,
    recipients: &Vec<Identity>,
    caller: Identity,
) -> (r: Result<ForceClosed, Error>)
    requires
        fs.wf(),
        old(market)@.wf(),
    ensures
        final(market)@.wf(),
        r matches Ok(ev) ==> {
            &&& admin_force_close_err(*fs, old(market)@, old(positions)@, recipients@, caller)
                is None
            &&& final(market)@ == (MarketModel {
                status: Status::Cancelled,
                proposed_outcome: None,
                proposer: None,
                challenge_end_time: None,
                escrow: (old(market)@.escrow - batch_total(old(positions)@)) as u64,
                ..old(market)@
            })
            &&& final(positions)@.len() == old(positions)@.len()
            &&& (forall|j: int|
                0 <= j < old(positions)@.len() ==> final(positions)@[j] == (Position {
                    claimed: true,
                    ..old(positions)@[j]
                }))
            &&& ev == (ForceClosed {
                market_id: old(market)@.id,
                admin: caller,
                total_refunded: batch_total(old(positions)@) as u64,
            })
        },
        r matches Err(e) ==> {
            &&& Some(e) == admin_force_close_err(*fs, old(market)@, old(positions)@, recipients@,
                caller)
            &&& *final(market) == *old(market)
            &&& final(positions)@ == old(positions)@
        },
{
    if caller != fs.admin {
        return Err(Error::NotAdmin);
    }
    if matches!(market.status, Status::Settled) {
        return Err(Error::MarketAlreadySettled);
    }
    if matches!(market.status, Status::Cancelled) {
        return Err(Error::MarketAlreadyCancelled);
    }
    if positions.len() != recipients.len() {
        return Err(Error::InvalidBatch);
    }
    let ghost ps = positions@;
    let ghost rs = recipients@;
    let n = positions.len();
    let mut total: u64 = 0;
    let mut i: usize = 0;
    while i < n
        invariant
            i <= n,
            n == ps.len() == rs.len(),
            positions@ == ps,
            recipients@ == rs,
            ps == old(positions)@,
            *market == *old(market),
            fs.wf(),
            old(market)@.wf(),
            caller == fs.admin,
            !(old(market)@.status is Settled),
            !(old(market)@.status is Cancelled),
            batch_scan_err(old(market)@, ps, rs, 0, 0) == batch_scan_err(old(market)@, ps, rs,
                i as int, total as int),
            total == batch_total(ps) - batch_total_from(ps, i as int),
        decreases n - i,
    {
        let p = positions[i];
        let recipient = recipients[i];
        if p.market_id != market.id {
            return Err(Error::WrongMarket);
        }
        if p.user != recipient {
            return Err(Error::NotRecipient);
        }
        if p.claimed {
            return Err(Error::AlreadyClaimed);
        }
        let mut j: usize = 0;
        while j < i
            invariant
                j <= i < n,
                n == ps.len() == rs.len(),
                positions@ == ps,
                recipients@ == rs,
                ps == old(positions)@,
                *market == *old(market),
                fs.wf(),
                old(market)@.wf(),
                caller == fs.admin,
                !(old(market)@.status is Settled),
                !(old(market)@.status is Cancelled),
                p == ps[i as int],
                batch_pair_err(old(market)@, ps[i as int], rs[i as int]) is None,
                batch_scan_err(old(market)@, ps, rs, 0, 0) == batch_scan_err(old(market)@, ps,
                    rs, i as int, total as int),
                total == batch_total(ps) - batch_total_from(ps, i as int),
                forall|l: int| 0 <= l < j ==> ps[l].user != ps[i as int].user,
            decreases i - j,
        {
            if positions[j].user == p.user {
                return Err(Error::AlreadyClaimed);
            }
            j = j + 1;
        }
        if p.amount == 0 {
            return Err(Error::InvalidAmount);
        }
        if p.amount > u64::MAX - total {
            return Err(Error::Overflow);
        }
        total = total + p.amount;
        i = i + 1;
    }
    if total > market.escrow {
        return Err(Error::InsufficientFunds);
    }
    let mut i: usize = 0;
    while i < n
        invariant
            i <= n,
            n == ps.len() == rs.len(),
            positions@.len() == n,
            ps == old(positions)@,
            *market == *old(market),
            fs.wf(),
            old(market)@.wf(),
            admin_force_close_err(*fs, old(market)@, ps, rs, caller) is None,
            total == batch_total(ps),
            total <= old(market)@.escrow,
            forall|j: int| 0 <= j < i ==> positions@[j] == (Position { claimed: true, ..ps[j] }),
            forall|j: int| i <= j < n ==> positions@[j] == ps[j],
        decreases n - i,
    {
        let p = positions[i];
        positions[i] = Position { claimed: true, ..p };
        i = i + 1;
    }
    market.status = Status::Cancelled;
    market.proposed_outcome = None;
    market.proposer = None;
    market.challenge_end_time = None;
    market.escrow = market.escrow - total;
    proof {
        assert(market@ =~~= (MarketModel {
            status: Status::Cancelled,
            proposed_outcome: None,
            proposer: None,
            challenge_end_time: None,
            escrow: (old(market)@.escrow - batch_total(old(positions)@)) as u64,
            ..old(market)@
        }));
    }
    Ok(ForceClosed { market_id: market.id, admin: caller, total_refunded: total })
}

/// Decides an admin sweep of an abandoned account: admin-only, and the
/// whole balance — handed in by the host, since only the ledger knows it —
/// goes to the admin.  The host performs the movement the receipt reports.
pub fn admin_close_account(fs: &FeeSchedule, caller: Identity, balance: u64) -> (r: Result<
    AccountClosed,
    Error,
>)
    requires
        fs.wf(),
    ensures
        caller == fs.admin ==> r == Ok::<AccountClosed, Error>(AccountClosed {
            admin: caller,
            recovered: balance,
        }),
        caller != fs.admin ==> r == Err::<AccountClosed, Error>(Error::NotAdmin),
{
    if caller != fs.admin {
        return Err(Error::NotAdmin);
    }
    Ok(AccountClosed { admin: caller, recovered: balance })
}

} // verus!
