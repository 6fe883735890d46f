//! Market creation and staking.

use vstd::prelude::*;

use crate::amounts::{fee_amount, fee_of};
use crate::errors::Error;
use crate::events::{BetPlaced, MarketCreated};
use crate::fees::FeeSchedule;
use crate::market::{
    lemma_sum_totals_element_le, lemma_sum_totals_update, lemma_sum_totals_zero, Market,
    MarketModel, Position, Resolver, Status, MAX_OPTIONS, MAX_OPTION_LEN, MAX_QUESTION_LEN,
    MIN_STAKE,
};
use crate::Identity;

verus! {

/// The first failing validation of [`create_market`], or `None` when the
/// call succeeds.
pub open spec fn create_market_err(
    fs: FeeSchedule,
    question: Seq<char>,
    options: Seq<Seq<char>>,
    stake_amount: u64,
    bet_deadline: i64,
    resolve_time: i64,
    challenge_window: i64,
    resolver: Resolver,
    now: i64,
) -> Option<Error> {
    if question.len() > MAX_QUESTION_LEN {
        Some(Error::QuestionTooLong)
    } else if options.len() < 2 || options.len() > MAX_OPTIONS {
        Some(Error::InvalidOptionsCount)
    } else if exists|i: int| 0 <= i < options.len() && options[i].len() > MAX_OPTION_LEN {
        Some(Error::OptionTooLong)
    } else if stake_amount != 0 && stake_amount < MIN_STAKE {
        Some(Error::StakeTooSmall)
    } else if bet_deadline <= now {
        Some(Error::InvalidBetDeadline)
    } else if resolve_time < bet_deadline {
        Some(Error::InvalidResolveTime)
    } else if challenge_window <= 0 {
        Some(Error::InvalidChallengeWindow)
    } else if resolver matches Resolver::Oracle { oracle, .. } && oracle == 0 {
        Some(Error::InvalidIdentity)
    } else if resolver matches Resolver::Oracle { target_price, .. } && target_price == 0 {
        Some(Error::InvalidPrice)
    } else if resolver matches Resolver::Oracle { .. } && options.len() != 2 {
        Some(Error::InvalidOptionsCount)
    } else if fs.next_market_id == u64::MAX {
        Some(Error::Overflow)
    } else {
        None
    }
}

/// The market a successful [`create_market`] call brings into being: the
/// next id, the given parameters, all counters at zero, status `Open`.
pub open spec fn create_market_model(
    fs: FeeSchedule,
    creator: Identity,
    question: Seq<char>,
    options: Seq<Seq<char>>,
    stake_amount: u64,
    bet_deadline: i64,
    resolve_time: i64,
    challenge_window: i64,
    resolver: Resolver,
) -> MarketModel {
    MarketModel {
        id: fs.next_market_id,
        creator,
        question,
        options,
        option_totals: Seq::new(options.len(), |i: int| 0u64),
        option_participant_counts: Seq::new(options.len(), |i: int| 0u32),
        stake_amount,
        bet_deadline,
        resolve_time,
        challenge_window,
        resolver,
        status: Status::Open,
        proposed_outcome: None,
        proposer: None,
        challenge_end_time: None,
        final_outcome: None,
        admin_resolved: false,
        total_pool: 0,
        escrow: 0,
    }
}

fn zero_totals(n: usize) -> (v: Vec<u64>)
    ensures
        v@.len() == n,
        forall|i: int| 0 <= i < n ==> v@[i] == 0,
{
    let mut v: Vec<u64> = Vec::new();
    let mut i: usize = 0;
    while i < n
        invariant
            i <= n,
            v@.len() == i,
            forall|j: int| 0 <= j < i ==> v@[j] == 0,
        decreases n - i,
    {
        v.push(0);
        i = i + 1;
    }
    v
}

fn zero_counts(n: usize) -> (v: Vec<u32>)
    ensures
        v@.len() == n,
        forall|i: int| 0 <= i < n ==> v@[i] == 0,
{
    let mut v: Vec<u32> = Vec::new();
    let mut i: usize = 0;
    while i < n
        invariant
            i <= n,
            v@.len() == i,
            forall|j: int| 0 <= j < i ==> v@[j] == 0,
        decreases n - i,
    {
        v.push(0);
        i = i + 1;
    }
    v
}

/// Creates a market: validates the question, the options, the stake bound,
/// the deadlines and the resolver, assigns the next market id (checked
/// against wraparound, so an id is never reused), and charges the flat
/// creation fee from the creator to the fee sink (nothing moves when it is
/// zero).  Betting opens immediately; the creator holds no position until
/// they place a bet themselves.
pub fn create_market(
    fs: &mut FeeSchedule,
    creator: Identity,
    question: String,
    options: Vec<String>,
    stake_amount: u64,
    bet_deadline: i64,
    resolve_time: i64,
    challenge_window: i64,
    resolver: Resolver,
    now: i64,
) -> (r: Result<(Market, MarketCreated), Error>)
    requires
        old(fs).wf(),
    ensures
        final(fs).wf(),
        r matches Ok(p) ==> {
            &&& create_market_err(*old(fs), question@, options.deep_view(), stake_amount,
                bet_deadline, resolve_time, challenge_window, resolver, now) is None
            &&& *final(fs) == (FeeSchedule {
                next_market_id: (old(fs).next_market_id + 1) as u64,
                ..*old(fs)
            })
            &&& p.0@ == create_market_model(*old(fs), creator, question@, options.deep_view(),
                stake_amount, bet_deadline, resolve_time, challenge_window, resolver)
            &&& p.0@.wf()
            &&& p.1 == (MarketCreated {
                market_id: old(fs).next_market_id,
                creator,
                create_fee: old(fs).create_fee,
            })
        },
        r matches Err(e) ==> {
            &&& Some(e) == create_market_err(*old(fs), question@, options.deep_view(),
                stake_amount, bet_deadline, resolve_time, challenge_window, resolver, now)
            &&& *final(fs) == *old(fs)
        },
{
    if question.as_str().unicode_len() > MAX_QUESTION_LEN {
        return Err(Error::QuestionTooLong);
    }
    let n = options.len();
    if n < 2 || n > MAX_OPTIONS {
        return Err(Error::InvalidOptionsCount);
    }
    let mut i: usize = 0;
    while i < n
        invariant
            i <= n,
            n == options@.len(),
            2 <= n <= MAX_OPTIONS,
            question@.len() <= MAX_QUESTION_LEN,
            *fs == *old(fs),
            old(fs).wf(),
            forall|j: int| 0 <= j < i ==> options.deep_view()[j].len() <= MAX_OPTION_LEN,
        decreases n - i,
    {
        let label: &String = &options[i];
        if label.as_str().unicode_len() > MAX_OPTION_LEN {
            assert(options.deep_view()[i as int].len() > MAX_OPTION_LEN);
            return Err(Error::OptionTooLong);
        }
        i = i + 1;
    }
    assert(forall|j: int|
        0 <= j < options.deep_view().len() ==> #[trigger] options.deep_view()[j].len()
            <= MAX_OPTION_LEN);
    if stake_amount != 0 && stake_amount < MIN_STAKE {
        return Err(Error::StakeTooSmall);
    }
    if bet_deadline <= now {
        return Err(Error::InvalidBetDeadline);
    }
    if resolve_time < bet_deadline {
        return Err(Error::InvalidResolveTime);
    }
    if challenge_window <= 0 {
        return Err(Error::InvalidChallengeWindow);
    }
    if let Resolver::Oracle { oracle, target_price } = resolver {
        if oracle == 0 {
            return Err(Error::InvalidIdentity);
        }
        if target_price == 0 {
            return Err(Error::InvalidPrice);
        }
        if n != 2 {
            return Err(Error::InvalidOptionsCount);
        }
    }
    if fs.next_market_id == u64::MAX {
        return Err(Error::Overflow);
    }
    let market_id = fs.next_market_id;
    fs.next_market_id = fs.next_market_id + 1;

    let totals = zero_totals(n);
    let counts = zero_counts(n);
    let market = Market {
        id: market_id,
        creator,
        question,
        options,
        option_totals: totals,
        option_participant_counts: counts,
        stake_amount,
        bet_deadline,
        resolve_time,
        challenge_window,
        resolver,
        status: Status::Open,
        proposed_outcome: None,
        proposer: None,
        challenge_end_time: None,
        final_outcome: None,
        admin_resolved: false,
        total_pool: 0,
        escrow: 0,
    };
    proof {
        assert(market@ =~~= create_market_model(*old(fs), creator, market.question@,
            market.options.deep_view(), stake_amount, bet_deadline, resolve_time,
            challenge_window, resolver));
        lemma_sum_totals_zero(market@.option_totals);
    }
    let receipt = MarketCreated { market_id, creator, create_fee: fs.create_fee };
    Ok((market, receipt))
}

/// The first failing check of [`place_bet`], or `None` when the call
/// succeeds.
pub open spec fn place_bet_err(
    fs: FeeSchedule,
    m: MarketModel,
    existing: Option<Position>,
    user: Identity,
    option_index: usize,
    amount: u64,
    now: i64,
) -> Option<Error> {
    if !(m.status is Open) {
        Some(Error::MarketNotOpen)
    } else if now >= m.bet_deadline {
        Some(Error::BettingClosed)
    } else if option_index >= m.options.len() {
        Some(Error::InvalidOptionIndex)
    } else if amount == 0 {
        Some(Error::InvalidAmount)
    } else if m.stake_amount != 0 && amount != m.stake_amount {
        Some(Error::InvalidAmount)
    } else if existing matches Some(p) && p.market_id != m.id {
        Some(Error::WrongMarket)
    } else if existing matches Some(p) && p.user != user {
        Some(Error::NotRecipient)
    } else if existing matches Some(p) && p.claimed {
        Some(Error::AlreadyClaimed)
    } else if existing matches Some(p) && p.option_index != option_index {
        Some(Error::CannotChangeOption)
    } else if existing matches Some(p) && p.amount + amount > u64::MAX {
        Some(Error::Overflow)
    } else if existing matches Some(p) && p.bet_count == u32::MAX {
        Some(Error::Overflow)
    } else if m.total_pool + amount > u64::MAX {
        Some(Error::Overflow)
    } else if existing is None && m.option_participant_counts[option_index as int] == u32::MAX {
        Some(Error::Overflow)
    } else {
        None
    }
}

/// The position a successful [`place_bet`] call leaves behind: on a first
/// stake a fresh position on the chosen option, on a repeat stake the same
/// position with the principal and the bet count grown.  The option index of
/// an existing position is never changed.
pub open spec fn place_bet_position(
    m: MarketModel,
    existing: Option<Position>,
    user: Identity,
    option_index: usize,
    amount: u64,
) -> Position {
    match existing {
        Some(p) => Position {
            amount: (p.amount + amount) as u64,
            bet_count: (p.bet_count + 1) as u32,
            ..p
        },
        None => Position {
            market_id: m.id,
            user,
            option_index,
            amount,
            claimed: false,
            bet_count: 1,
        },
    }
}

/// The market a successful [`place_bet`] call leaves behind: the chosen
/// option's total, the total pool and the escrow each grown by the
/// principal, and the option's participant count grown by one on a first
/// stake.
pub open spec fn place_bet_market(
    m: MarketModel,
    existing: Option<Position>,
    option_index: usize,
    amount: u64,
) -> MarketModel {
    let idx = option_index as int;
    MarketModel {
        option_totals: m.option_totals.update(idx, (m.option_totals[idx] + amount) as u64),
        option_participant_counts: if existing is None {
            m.option_participant_counts.update(
                idx,
                (m.option_participant_counts[idx] + 1) as u32,
            )
        } else {
            m.option_participant_counts
        },
        total_pool: (m.total_pool + amount) as u64,
        escrow: (m.escrow + amount) as u64,
        ..m
    }
}

/// Places a stake of `amount` on option `option_index`.
///
/// The first stake of a user on a market creates their position and fixes
/// its option; a repeat stake must name the same option (else
/// `CannotChangeOption`) and adds to the principal, checked.  A stake is
/// rejected once the betting deadline is reached (`BettingClosed`), strictly
/// before which it is accepted whenever the other checks pass.  A
/// fixed-stake market accepts only its exact stake per bet.  A position that
/// was already paid out or refunded accepts no further stake.
///
/// On success the host owes the escrow the principal and the fee sink the
/// join fee, as the receipt records.
pub fn place_bet(
    fs: &FeeSchedule,
    market: &mut Market,
    position: &mut Option<Position>,
    user: Identity,
    option_index: usize,
    amount: u64,
    now: i64,
) -> (r: Result<BetPlaced, Error>)
    requires
        fs.wf(),
        old(market)@.wf(),
    ensures
        final(market)@.wf(),
        r matches Ok(ev) ==> {
            &&& place_bet_err(*fs, old(market)@, *old(position), user, option_index, amount, now)
                is None
            &&& final(market)@ == place_bet_market(old(market)@, *old(position), option_index,
                amount)
            &&& *final(position) == Some(place_bet_position(old(market)@, *old(position), user,
                option_index, amount))
            &&& ev == (BetPlaced {
                market_id: old(market)@.id,
                user,
                option_index,
                amount,
                join_fee: fee_of(amount as int, fs.join_fee_bps) as u64,
            })
        },
        r matches Err(e) ==> {
            &&& Some(e) == place_bet_err(*fs, old(market)@, *old(position), user, option_index,
                amount, now)
            &&& *final(market) == *old(market)
            &&& *final(position) == *old(position)
        },
{
    if !matches!(market.status, Status::Open) {
        return Err(Error::MarketNotOpen);
    }
    if now >= market.bet_deadline {
        return Err(Error::BettingClosed);
    }
    if option_index >= market.options.len() {
        return Err(Error::InvalidOptionIndex);
    }
    if amount == 0 {
        return Err(Error::InvalidAmount);
    }
    if market.stake_amount != 0 && amount != market.stake_amount {
        return Err(Error::InvalidAmount);
    }
    let existing: Option<Position> = *position;
    if let Some(p) = existing {
        if p.market_id != market.id {
            return Err(Error::WrongMarket);
        }
        if p.user != user {
            return Err(Error::NotRecipient);
        }
        if p.claimed {
            return Err(Error::AlreadyClaimed);
        }
        if p.option_index != option_index {
            return Err(Error::CannotChangeOption);
        }
        if amount > u64::MAX - p.amount {
            return Err(Error::Overflow);
        }
        if p.bet_count == u32::MAX {
            return Err(Error::Overflow);
        }
    }
    if amount > u64::MAX - market.total_pool {
        return Err(Error::Overflow);
    }
    let first_stake = matches!(existing, Option::None);
    if first_stake {
        let c = market.option_participant_counts[option_index];
        if c == u32::MAX {
            return Err(Error::Overflow);
        }
        market.option_participant_counts[option_index] = c + 1;
    }
    proof {
        lemma_sum_totals_element_le(old(market)@.option_totals, option_index as int);
    }
    let t = market.option_totals[option_index];
    market.option_totals[option_index] = t + amount;
    market.total_pool = market.total_pool + amount;
    market.escrow = market.escrow + amount;
    let updated = match existing {
        Some(p) => Position {
            amount: p.amount + amount,
            bet_count: p.bet_count + 1,
            ..p
        },
        None => Position { market_id: market.id, user, option_index, amount, claimed: false, bet_count: 1 },
    };
    *position = Some(updated);
    let join_fee = fee_amount(amount, fs.join_fee_bps);
    proof {
        lemma_sum_totals_update(old(market)@.option_totals, option_index as int, (old(
            market,
        )@.option_totals[option_index as int] + amount) as u64);
        assert(market@ =~~= place_bet_market(old(market)@, existing, option_index, amount));
    }
    Ok(BetPlaced { market_id: market.id, user, option_index, amount, join_fee })
}

} // verus!
