//! The market and position records and their invariants.
//!
//! A `Market` is one prediction question with an ordered set of options, an
//! escrow pool and a status state machine; a `Position` is one user's
//! cumulative stake on one option of one market.  Both are owned by the host
//! storage layer; the engine operates on them by reference.

use vstd::prelude::*;

use crate::Identity;

verus! {

/// Largest number of options a market may carry.
pub const MAX_OPTIONS: usize = 10;

/// Longest admissible question, in characters.
pub const MAX_QUESTION_LEN: usize = 256;

/// Longest admissible option label, in characters.
pub const MAX_OPTION_LEN: usize = 64;

/// Minimum-dust threshold for the fixed stake of a fixed-stake market.
pub const MIN_STAKE: u64 = 10_000_000;

/// How long after `resolve_time` a market without any proposed outcome must
/// sit before its stakers may reclaim their principal: seven days, in
/// seconds.
pub const GRACE_PERIOD: i64 = 604_800;

/// The stored status of a market.
///
/// The full state machine is `Open -> Proposed -> Disputed -> Settled`, with
/// `Cancelled` reachable from every non-terminal state by admin action, and
/// `Settled` and `Cancelled` both terminal.  A market whose betting deadline
/// has passed is closed to betting even while its stored status still reads
/// `Open`: closedness is observed against the clock, not stored.
#[derive(Clone, Copy, Debug, PartialEq, Eq, Structural)]
pub enum Status {
    /// Accepting bets until the deadline, and an outcome thereafter.
    Open,
    /// An outcome has been proposed and its challenge window is running.
    Proposed,
    /// The proposal was challenged; only the admin can settle now.
    Disputed,
    /// The final outcome is fixed; winners may claim.  Terminal.
    Settled,
    /// Cancelled by the admin; stakers may reclaim their principal.  Terminal.
    Cancelled,
}

/// How a market reaches its final outcome.
///
/// The settlement engine is one state machine; the resolver is the plugged-in
/// capability that decides the outcome.  An optimistic market goes through
/// propose, challenge and finalize; an oracle market is settled in a single
/// authoritative price submission, with no challenge period.
#[derive(Clone, Copy, Debug, PartialEq, Eq, Structural)]
pub enum Resolver {
    /// Any bettor proposes; the proposal stands unless challenged within the
    /// market's challenge window; disputes are settled by the admin.
    Optimistic,
    /// A designated identity submits the final price, which is compared
    /// against the target: above it option 0 wins, otherwise option 1.
    Oracle {
        /// The only identity allowed to settle the market.
        oracle: Identity,
        /// The price the final submission is compared against.
        target_price: u64,
    },
}

/// One user's cumulative stake on one option of one market.  Created on the
/// first stake, never deleted; `option_index` is fixed once set and `claimed`
/// flips false to true exactly once.
#[derive(Clone, Copy, Debug, PartialEq, Eq, Structural)]
pub struct Position {
    /// The market this position belongs to.
    pub market_id: u64,
    /// The staking user.
    pub user: Identity,
    /// The option the stake rides on; immutable after the first stake.
    pub option_index: usize,
    /// Cumulative principal; grows monotonically until claim.
    pub amount: u64,
    /// Whether the position has been paid out or refunded.
    pub claimed: bool,
    /// How many stakes built this position; informational.
    pub bet_count: u32,
}

impl Position {
    /// Well-formedness: a position records at least one stake of positive
    /// principal.
    pub open spec fn wf(self) -> bool {
        &&& self.amount > 0
        &&& self.bet_count >= 1
    }
}

/// The mathematical image of a [`Market`]: the same record over `Seq` views
/// of the question, the option labels and the parallel per-option counters.
#[verifier::ext_equal]
pub struct MarketModel {
    /// Unique id, assigned from the fee schedule's counter at creation.
    pub id: u64,
    /// The identity that created the market.
    pub creator: Identity,
    /// The question, as a sequence of characters.
    pub question: Seq<char>,
    /// The option labels, in order.
    pub options: Seq<Seq<char>>,
    /// Stake held per option; parallel to `options`.
    pub option_totals: Seq<u64>,
    /// Positions opened per option; parallel to `options`.
    pub option_participant_counts: Seq<u32>,
    /// Required amount per bet, or zero for a variable-stake market.
    pub stake_amount: u64,
    /// Bets are rejected from this timestamp on.
    pub bet_deadline: i64,
    /// From this timestamp the market is expected to resolve; the timeout
    /// refund opens a grace period after it.
    pub resolve_time: i64,
    /// Length of the challenge window an optimistic proposal opens.
    pub challenge_window: i64,
    /// The resolution capability this market was created with.
    pub resolver: Resolver,
    /// The stored status.
    pub status: Status,
    /// The outcome on the table; present exactly while Proposed or Disputed.
    pub proposed_outcome: Option<usize>,
    /// Who proposed it; present exactly while Proposed or Disputed.
    pub proposer: Option<Identity>,
    /// When the challenge window ends; present exactly while Proposed or
    /// Disputed.
    pub challenge_end_time: Option<i64>,
    /// The settled outcome; present exactly once Settled.
    pub final_outcome: Option<usize>,
    /// Whether settlement came from the admin's dispute override rather than
    /// the unprivileged paths; kept for audit.
    pub admin_resolved: bool,
    /// Sum of all option totals: the principal ever staked and not part of a
    /// fee.  Stays put through claims; the accounting reference.
    pub total_pool: u64,
    /// The escrow's current holdings: grows with stakes, shrinks with the
    /// settlement fee, payouts and refunds.
    pub escrow: u64,
}

/// Sum of a sequence of per-option totals, as an unbounded integer.
pub open spec fn sum_totals(totals: Seq<u64>) -> int
    decreases totals.len(),
{
    if totals.len() == 0 {
        0
    } else {
        sum_totals(totals.drop_last()) + totals.last()
    }
}

/// Sum of the principal of a sequence of positions, as an unbounded integer.
pub open spec fn positions_sum(ps: Seq<Position>) -> int
    decreases ps.len(),
{
    if ps.len() == 0 {
        0
    } else {
        positions_sum(ps.drop_last()) + ps.last().amount
    }
}

/// What one position contributes to the stake held by option
/// `option_index`: its principal when it rides on that option, nothing
/// otherwise.
pub open spec fn option_contribution(p: Position, option_index: usize) -> int {
    if p.option_index == option_index {
        p.amount as int
    } else {
        0
    }
}

/// Sum of the principal a sequence of positions holds on one option.
pub open spec fn option_positions_sum(ps: Seq<Position>, option_index: usize) -> int
    decreases ps.len(),
{
    if ps.len() == 0 {
        0
    } else {
        option_positions_sum(ps.drop_last(), option_index) + option_contribution(
            ps.last(),
            option_index,
        )
    }
}

impl MarketModel {
    /// Well-formedness of a market record.  Established by market creation
    /// and preserved by every engine operation.
    pub open spec fn wf(self) -> bool {
        &&& 2 <= self.options.len() <= MAX_OPTIONS
        &&& self.question.len() <= MAX_QUESTION_LEN
        &&& (forall|i: int|
            0 <= i < self.options.len() ==> #[trigger] self.options[i].len() <= MAX_OPTION_LEN)
        &&& self.option_totals.len() == self.options.len()
        &&& self.option_participant_counts.len() == self.options.len()
        &&& self.total_pool == sum_totals(self.option_totals)
        &&& self.escrow <= self.total_pool
        &&& self.challenge_window > 0
        &&& self.resolve_time >= self.bet_deadline
        &&& (self.proposed_outcome is Some <==> (self.status is Proposed || self.status
            is Disputed))
        &&& (self.proposer is Some <==> (self.status is Proposed || self.status is Disputed))
        &&& (self.challenge_end_time is Some <==> (self.status is Proposed || self.status
            is Disputed))
        &&& (self.proposed_outcome matches Some(k) ==> k < self.options.len())
        &&& (self.final_outcome is Some <==> self.status is Settled)
        &&& (self.final_outcome matches Some(k) ==> k < self.options.len())
        &&& (self.resolver matches Resolver::Oracle { oracle, target_price } ==> {
            &&& oracle != 0
            &&& target_price > 0
            &&& self.options.len() == 2
        })
    }

}

/// A sequence of all-zero totals sums to zero.
pub proof fn lemma_sum_totals_zero(totals: Seq<u64>)
    requires
        forall|i: int| 0 <= i < totals.len() ==> totals[i] == 0,
    ensures
        sum_totals(totals) == 0,
    decreases totals.len(),
{
    if totals.len() > 0 {
        lemma_sum_totals_zero(totals.drop_last());
    }
}

/// Replacing one element changes the sum by the difference of the elements.
pub proof fn lemma_sum_totals_update(totals: Seq<u64>, i: int, v: u64)
    requires
        0 <= i < totals.len(),
    ensures
        sum_totals(totals.update(i, v)) == sum_totals(totals) - totals[i] + v,
    decreases totals.len(),
{
    let last = totals.len() - 1;
    if i == last {
        assert(totals.update(i, v).drop_last() =~= totals.drop_last());
    } else {
        assert(totals.update(i, v).drop_last() =~= totals.drop_last().update(i, v));
        lemma_sum_totals_update(totals.drop_last(), i, v);
    }
}

/// Every element is at most the sum of the whole sequence.
pub proof fn lemma_sum_totals_element_le(totals: Seq<u64>, i: int)
    requires
        0 <= i < totals.len(),
    ensures
        totals[i] <= sum_totals(totals),
    decreases totals.len(),
{
    lemma_sum_totals_nonneg(totals.drop_last());
    if i < totals.len() - 1 {
        lemma_sum_totals_element_le(totals.drop_last(), i);
    }
}

/// A sum of unsigned totals is never negative.
pub proof fn lemma_sum_totals_nonneg(totals: Seq<u64>)
    ensures
        sum_totals(totals) >= 0,
    decreases totals.len(),
{
    if totals.len() > 0 {
        lemma_sum_totals_nonneg(totals.drop_last());
    }
}

/// Replacing one position changes the principal sum by the difference of the
/// two amounts.
pub proof fn lemma_positions_sum_update(ps: Seq<Position>, i: int, p: Position)
    requires
        0 <= i < ps.len(),
    ensures
        positions_sum(ps.update(i, p)) == positions_sum(ps) - ps[i].amount + p.amount,
    decreases ps.len(),
{
    let last = ps.len() - 1;
    if i == last {
        assert(ps.update(i, p).drop_last() =~= ps.drop_last());
    } else {
        assert(ps.update(i, p).drop_last() =~= ps.drop_last().update(i, p));
        lemma_positions_sum_update(ps.drop_last(), i, p);
    }
}

/// Appending a position adds exactly its principal to the sum.
pub proof fn lemma_positions_sum_push(ps: Seq<Position>, p: Position)
    ensures
        positions_sum(ps.push(p)) == positions_sum(ps) + p.amount,
{
    assert(ps.push(p).drop_last() =~= ps);
}

/// Appending a position adds exactly its contribution to an option's sum.
pub proof fn lemma_option_positions_sum_push(ps: Seq<Position>, p: Position, option_index: usize)
    ensures
        option_positions_sum(ps.push(p), option_index) == option_positions_sum(ps, option_index)
            + option_contribution(p, option_index),
{
    assert(ps.push(p).drop_last() =~= ps);
}

/// Replacing one position changes an option's sum by the difference of the
/// two contributions.
pub proof fn lemma_option_positions_sum_update(
    ps: Seq<Position>,
    i: int,
    p: Position,
    option_index: usize,
)
    requires
        0 <= i < ps.len(),
    ensures
        option_positions_sum(ps.update(i, p), option_index) == option_positions_sum(
            ps,
            option_index,
        ) - option_contribution(ps[i], option_index) + option_contribution(p, option_index),
    decreases ps.len(),
{
    let last = ps.len() - 1;
    if i == last {
        assert(ps.update(i, p).drop_last() =~= ps.drop_last());
    } else {
        assert(ps.update(i, p).drop_last() =~= ps.drop_last().update(i, p));
        lemma_option_positions_sum_update(ps.drop_last(), i, p, option_index);
    }
}

/// One prediction question: its options, its escrow pool, and its status
/// state machine.  Never physically destroyed; terminal states are retained
/// so claims and audits can still read them.
#[derive(Debug)]
pub struct Market {
    /// Unique id, assigned from the fee schedule's counter at creation.
    pub id: u64,
    /// The identity that created the market.
    pub creator: Identity,
    /// The question this market settles.
    pub question: String,
    /// The option labels, in order; fixed at creation.
    pub options: Vec<String>,
    /// Stake held per option; parallel to `options`.
    pub option_totals: Vec<u64>,
    /// Positions opened per option; parallel to `options`.
    pub option_participant_counts: Vec<u32>,
    /// Required amount per bet, or zero for a variable-stake market.
    pub stake_amount: u64,
    /// Bets are rejected from this timestamp on.
    pub bet_deadline: i64,
    /// From this timestamp the market is expected to resolve.
    pub resolve_time: i64,
    /// Length of the challenge window an optimistic proposal opens.
    pub challenge_window: i64,
    /// The resolution capability this market was created with.
    pub resolver: Resolver,
    /// The stored status.
    pub status: Status,
    /// The outcome on the table; present exactly while Proposed or Disputed.
    pub proposed_outcome: Option<usize>,
    /// Who proposed it; present exactly while Proposed or Disputed.
    pub proposer: Option<Identity>,
    /// When the challenge window ends; present exactly while Proposed or
    /// Disputed.
    pub challenge_end_time: Option<i64>,
    /// The settled outcome; present exactly once Settled.
    pub final_outcome: Option<usize>,
    /// Whether settlement came from the admin's dispute override.
    pub admin_resolved: bool,
    /// Sum of all option totals.
    pub total_pool: u64,
    /// The escrow's current holdings.
    pub escrow: u64,
}

impl View for Market {
    type V = MarketModel;

    open spec fn view(&self) -> MarketModel {
        MarketModel {
            id: self.id,
            creator: self.creator,
            question: self.question@,
            options: self.options.deep_view(),
            option_totals: self.option_totals@,
            option_participant_counts: self.option_participant_counts@,
            stake_amount: self.stake_amount,
            bet_deadline: self.bet_deadline,
            resolve_time: self.resolve_time,
            challenge_window: self.challenge_window,
            resolver: self.resolver,
            status: self.status,
            proposed_outcome: self.proposed_outcome,
            proposer: self.proposer,
            challenge_end_time: self.challenge_end_time,
            final_outcome: self.final_outcome,
            admin_resolved: self.admin_resolved,
            total_pool: self.total_pool,
            escrow: self.escrow,
        }
    }
}

} // verus!
