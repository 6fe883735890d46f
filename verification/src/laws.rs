//! The engine's cross-cutting guarantees, proved from the operation models.
//!
//! Each law here relates several operations, or an operation to the
//! accounting identity, and is stated over the same spec functions the
//! operations' own contracts use — so what a caller reads in a contract and
//! what a law claims are one and the same thing.

use vstd::arithmetic::div_mod::lemma_div_multiples_vanish;
use vstd::arithmetic::mul::{
    lemma_mul_is_commutative, lemma_mul_is_distributive_add, lemma_mul_nonnegative,
};
use vstd::prelude::*;

use crate::amounts::{lemma_div_superadditive, lemma_fee_of_bounds};
use crate::betting::{place_bet_err, place_bet_market, place_bet_position};
use crate::betting::{create_market_err, create_market_model};
use crate::errors::Error;
use crate::fees::FeeSchedule;
use crate::market::{
    lemma_option_positions_sum_push, lemma_option_positions_sum_update, lemma_positions_sum_push,
    lemma_positions_sum_update, lemma_sum_totals_nonneg, option_contribution,
    option_positions_sum, positions_sum, sum_totals, MarketModel, Position, Resolver,
};
use crate::refunds::{
    admin_cancel_market_err, admin_force_close_err, claim_cancelled_refund_err,
    refund_expired_err,
};
use crate::resolve::{
    challenge_outcome_err, finalize_settlement_err, live_stake_of, propose_outcome_err,
    resolve_dispute_err, settle_with_price_err,
};
use crate::settle::{available_pool, claim_prize_err, winning_pool};
use crate::Identity;

verus! {

/// Pool accounting, first stake: if a market's pool equals the summed
/// principal of its positions, then after a successful first stake — which
/// appends the new position — the grown pool again equals the summed
/// principal.  Together with the well-formedness clause
/// `total_pool == sum_totals(option_totals)` that every operation
/// preserves, the pool, the per-option totals and the positions' principal
/// stay one amount.
pub proof fn lemma_place_bet_accounting_first(
    fs: FeeSchedule,
    m: MarketModel,
    positions: Seq<Position>,
    user: Identity,
    option_index: usize,
    amount: u64,
    now: i64,
)
    requires
        place_bet_err(fs, m, None, user, option_index, amount, now) is None,
        m.total_pool == positions_sum(positions),
    ensures
        place_bet_market(m, None, option_index, amount).total_pool == positions_sum(
            positions.push(place_bet_position(m, None, user, option_index, amount)),
        ),
{
    lemma_positions_sum_push(positions, place_bet_position(m, None, user, option_index, amount));
}

/// Pool accounting, repeat stake: a successful repeat stake grows the
/// position in place and the pool by the same amount, so the pool again
/// equals the summed principal of the positions.
pub proof fn lemma_place_bet_accounting_repeat(
    fs: FeeSchedule,
    m: MarketModel,
    positions: Seq<Position>,
    i: int,
    user: Identity,
    option_index: usize,
    amount: u64,
    now: i64,
)
    requires
        0 <= i < positions.len(),
        place_bet_err(fs, m, Some(positions[i]), user, option_index, amount, now) is None,
        m.total_pool == positions_sum(positions),
    ensures
        place_bet_market(m, Some(positions[i]), option_index, amount).total_pool == positions_sum(
            positions.update(
                i,
                place_bet_position(m, Some(positions[i]), user, option_index, amount),
            ),
        ),
{
    lemma_positions_sum_update(
        positions,
        i,
        place_bet_position(m, Some(positions[i]), user, option_index, amount),
    );
}

/// Per-option accounting, first stake: if an option's recorded total equals
/// the principal the positions hold on it, a successful first stake keeps
/// it so — for the staked option, which grows by the principal, and for
/// every other option, which is untouched.  This is the identity the
/// settlement-solvency law rests on: the winning pool really is the summed
/// principal of the winning positions.
pub proof fn lemma_place_bet_per_option_accounting_first(
    fs: FeeSchedule,
    m: MarketModel,
    positions: Seq<Position>,
    user: Identity,
    option_index: usize,
    amount: u64,
    now: i64,
    o: usize,
)
    requires
        m.wf(),
        o < m.options.len(),
        place_bet_err(fs, m, None, user, option_index, amount, now) is None,
        m.option_totals[o as int] == option_positions_sum(positions, o),
    ensures
        place_bet_market(m, None, option_index, amount).option_totals[o as int]
            == option_positions_sum(
            positions.push(place_bet_position(m, None, user, option_index, amount)),
            o,
        ),
{
    let p = place_bet_position(m, None, user, option_index, amount);
    lemma_option_positions_sum_push(positions, p, o);
    crate::market::lemma_sum_totals_element_le(m.option_totals, option_index as int);
}

/// Per-option accounting, repeat stake: a successful repeat stake grows the
/// position and its option's recorded total by the same amount, and leaves
/// every other option's identity untouched.
pub proof fn lemma_place_bet_per_option_accounting_repeat(
    fs: FeeSchedule,
    m: MarketModel,
    positions: Seq<Position>,
    i: int,
    user: Identity,
    option_index: usize,
    amount: u64,
    now: i64,
    o: usize,
)
    requires
        m.wf(),
        o < m.options.len(),
        0 <= i < positions.len(),
        place_bet_err(fs, m, Some(positions[i]), user, option_index, amount, now) is None,
        m.option_totals[o as int] == option_positions_sum(positions, o),
    ensures
        place_bet_market(m, Some(positions[i]), option_index, amount).option_totals[o as int]
            == option_positions_sum(
            positions.update(
                i,
                place_bet_position(m, Some(positions[i]), user, option_index, amount),
            ),
            o,
        ),
{
    let p = place_bet_position(m, Some(positions[i]), user, option_index, amount);
    lemma_option_positions_sum_update(positions, i, p, o);
    crate::market::lemma_sum_totals_element_le(m.option_totals, option_index as int);
    assert(option_contribution(p, o) - option_contribution(positions[i], o) == (
    if p.option_index == o {
        amount as int
    } else {
        0
    }));
}

/// Pool accounting through claims: marking a position claimed leaves its
/// principal untouched, so the summed principal of a market's positions —
/// and with it the pool identity — survives every payout and refund, which
/// touch only the `claimed` flag and the escrow.
pub proof fn lemma_claim_preserves_accounting(positions: Seq<Position>, i: int)
    requires
        0 <= i < positions.len(),
    ensures
        positions_sum(positions.update(i, Position { claimed: true, ..positions[i] }))
            == positions_sum(positions),
{
    lemma_positions_sum_update(positions, i, Position { claimed: true, ..positions[i] });
}

/// Pool accounting through a batch force-close: the batch marks every
/// listed position claimed and touches no principal, so the summed
/// principal of the positions survives it, exactly as it survives a single
/// claim.
pub proof fn lemma_force_close_preserves_accounting(ps: Seq<Position>)
    ensures
        positions_sum(Seq::new(ps.len(), |j: int| Position { claimed: true, ..ps[j] }))
            == positions_sum(ps),
    decreases ps.len(),
{
    let claimed = Seq::new(ps.len(), |j: int| Position { claimed: true, ..ps[j] });
    if ps.len() > 0 {
        lemma_force_close_preserves_accounting(ps.drop_last());
        assert(claimed.drop_last() =~= Seq::new(
            ps.drop_last().len(),
            |j: int| Position { claimed: true, ..ps.drop_last()[j] },
        ));
    }
}

/// A position's option never changes after its first stake: the position a
/// repeat stake leaves behind rides on the very option the first stake
/// chose, whatever option the repeat call named (an unequal one is rejected
/// as `CannotChangeOption` before anything changes).  The claim and refund
/// paths touch only the `claimed` flag, as their contracts state.
pub proof fn lemma_option_index_fixed(
    m: MarketModel,
    existing: Position,
    user: Identity,
    option_index: usize,
    amount: u64,
)
    ensures
        place_bet_position(m, Some(existing), user, option_index, amount).option_index
            == existing.option_index,
{
}

/// One-shot payout: once a position is claimed — by a prize, a timeout
/// refund, a cancellation refund or a batch force-close, each of which sets
/// the flag — no path ever pays it again.  Both refund paths fail
/// `AlreadyClaimed` outright; the prize path fails `AlreadyClaimed` whenever
/// the market is settled, and cannot succeed in any other status either.
pub proof fn lemma_claim_is_one_shot(
    fs: FeeSchedule,
    m: MarketModel,
    p: Position,
    caller: Identity,
    now: i64,
)
    requires
        p.claimed,
        p.market_id == m.id,
        p.user == caller,
    ensures
        m.status is Settled ==> claim_prize_err(fs, m, p, caller) == Some(Error::AlreadyClaimed),
        claim_prize_err(fs, m, p, caller) is Some,
        refund_expired_err(m, p, caller, now) == Some(Error::AlreadyClaimed),
        claim_cancelled_refund_err(m, p, caller) == Some(Error::AlreadyClaimed),
{
}

/// What all winners together are owed: the sum, over a sequence of winning
/// principals, of each one's gross share of `avail` within the winning pool
/// `w` — each summand being exactly the `prize_share` the claim contract
/// promises that position.
pub open spec fn shares_sum(avail: int, w: int, amounts: Seq<u64>) -> int
    recommends
        w > 0,
    decreases amounts.len(),
{
    if amounts.len() == 0 {
        0
    } else {
        shares_sum(avail, w, amounts.drop_last()) + avail * amounts.last() / w
    }
}

/// The shares owed on a set of principals never exceed their proportional
/// part of `avail`: rounding down at each share loses value, never gains
/// it.
pub proof fn lemma_shares_sum_le(avail: int, w: int, amounts: Seq<u64>)
    requires
        avail >= 0,
        w > 0,
    ensures
        shares_sum(avail, w, amounts) <= avail * sum_totals(amounts) / w,
    decreases amounts.len(),
{
    if amounts.len() == 0 {
        lemma_sum_totals_nonneg(amounts);
    } else {
        let front = amounts.drop_last();
        let a = amounts.last() as int;
        lemma_shares_sum_le(avail, w, front);
        lemma_sum_totals_nonneg(front);
        lemma_mul_nonnegative(avail, sum_totals(front));
        lemma_mul_nonnegative(avail, a);
        lemma_div_superadditive(avail * sum_totals(front), avail * a, w);
        lemma_mul_is_distributive_add(avail, sum_totals(front), a);
    }
}

/// Settlement solvency: once a market settles, the pool net of the
/// settlement fee — which is exactly what settlement leaves in an escrow
/// that held the whole pool — covers the gross shares of all winners
/// together.  So long as the winning option's recorded total is the summed
/// principal of the winning positions (which staking maintains), the claims
/// cannot run the escrow dry, however many winners there are and in
/// whatever order they come.
pub proof fn lemma_settlement_covers_all_winners(
    fs: FeeSchedule,
    m: MarketModel,
    winner_amounts: Seq<u64>,
)
    requires
        fs.wf(),
        m.wf(),
        m.status is Settled,
        winning_pool(m) > 0,
        sum_totals(winner_amounts) == winning_pool(m),
    ensures
        shares_sum(available_pool(fs, m), winning_pool(m) as int, winner_amounts)
            <= available_pool(fs, m),
{
    let avail = available_pool(fs, m);
    let w = winning_pool(m) as int;
    lemma_fee_of_bounds(m.total_pool as int, fs.settle_fee_bps);
    lemma_shares_sum_le(avail, w, winner_amounts);
    lemma_mul_is_commutative(avail, w);
    lemma_div_multiples_vanish(avail, w);
}

/// Market ids strictly increase and are never reused: a successful creation
/// hands out the counter's value and bumps the counter, so a second
/// creation right after — and, since no other operation ever lowers the
/// counter, any later one — receives a strictly larger id.
pub proof fn lemma_market_ids_strictly_increase(
    fs: FeeSchedule,
    creator1: Identity,
    question1: Seq<char>,
    options1: Seq<Seq<char>>,
    stake_amount1: u64,
    bet_deadline1: i64,
    resolve_time1: i64,
    challenge_window1: i64,
    resolver1: Resolver,
    now1: i64,
    creator2: Identity,
    question2: Seq<char>,
    options2: Seq<Seq<char>>,
    stake_amount2: u64,
    bet_deadline2: i64,
    resolve_time2: i64,
    challenge_window2: i64,
    resolver2: Resolver,
    now2: i64,
)
    requires
        create_market_err(fs, question1, options1, stake_amount1, bet_deadline1, resolve_time1,
            challenge_window1, resolver1, now1) is None,
    ensures
        ({
            let first = create_market_model(fs, creator1, question1, options1, stake_amount1,
                bet_deadline1, resolve_time1, challenge_window1, resolver1);
            let bumped = FeeSchedule { next_market_id: (fs.next_market_id + 1) as u64, ..fs };
            let second = create_market_model(bumped, creator2, question2, options2, stake_amount2,
                bet_deadline2, resolve_time2, challenge_window2, resolver2);
            &&& first.id == fs.next_market_id
            &&& bumped.next_market_id > first.id
            &&& second.id > first.id
        }),
{
}

/// `Settled` and `Cancelled` are terminal.  Every operation that could move
/// the status rejects a market in either state — whatever the caller, the
/// arguments or the time — and the operations that do succeed there, the
/// claims and refunds, leave the status as it is, as their contracts state.
pub proof fn lemma_terminal_states_are_final(
    fs: FeeSchedule,
    m: MarketModel,
    p: Position,
    ps: Seq<Position>,
    rs: Seq<Identity>,
    caller: Identity,
    outcome: usize,
    price: u64,
    amount: u64,
    now: i64,
)
    requires
        m.status is Settled || m.status is Cancelled,
    ensures
        place_bet_err(fs, m, Some(p), caller, outcome, amount, now) is Some,
        place_bet_err(fs, m, None, caller, outcome, amount, now) is Some,
        propose_outcome_err(m, p, caller, outcome, now) is Some,
        challenge_outcome_err(m, p, caller, now) is Some,
        finalize_settlement_err(fs, m, p, caller, now) is Some,
        resolve_dispute_err(fs, m, caller, outcome) is Some,
        settle_with_price_err(fs, m, caller, price, now) is Some,
        admin_cancel_market_err(fs, m, caller) is Some,
        admin_force_close_err(fs, m, ps, rs, caller) is Some,
        refund_expired_err(m, p, caller, now) is Some,
{
}

/// The betting deadline is an exact boundary.  On an open market, a stake at
/// `bet_deadline - 1` (or any earlier time) is accepted exactly when the
/// same stake is acceptable at all, and a stake at `bet_deadline` or later
/// always fails `BettingClosed` — no other check hides the boundary.
pub proof fn lemma_bet_deadline_boundary(
    fs: FeeSchedule,
    m: MarketModel,
    existing: Option<Position>,
    user: Identity,
    option_index: usize,
    amount: u64,
    now: i64,
)
    requires
        m.status is Open,
        m.bet_deadline > i64::MIN,
    ensures
        now >= m.bet_deadline ==> place_bet_err(fs, m, existing, user, option_index, amount, now)
            == Some(Error::BettingClosed),
        (place_bet_err(fs, m, existing, user, option_index, amount, now) is None <==> (now
            < m.bet_deadline && place_bet_err(fs, m, existing, user, option_index, amount, (
        m.bet_deadline - 1) as i64) is None)),
{
}

/// The challenge window's end is an exact boundary.  For a live stakeholder
/// of a proposed optimistic market, a challenge strictly before
/// `challenge_end_time` — at `challenge_end_time - 1` in particular —
/// succeeds, and one at the end time or later always fails
/// `ChallengeWindowClosed`.
pub proof fn lemma_challenge_window_boundary(
    m: MarketModel,
    p: Position,
    caller: Identity,
    now: i64,
)
    requires
        m.resolver is Optimistic,
        m.status is Proposed,
        m.challenge_end_time is Some,
        live_stake_of(p, m, caller),
    ensures
        now < m.challenge_end_time.unwrap() ==> challenge_outcome_err(m, p, caller, now) is None,
        now >= m.challenge_end_time.unwrap() ==> challenge_outcome_err(m, p, caller, now) == Some(
            Error::ChallengeWindowClosed,
        ),
{
}

} // verus!
