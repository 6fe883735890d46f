//! The claim guard chain and the checked payout arithmetic, on records
//! built directly.

use prediction_market::errors::Error;
use prediction_market::fees::{initialize_fee_schedule, FeeSchedule};
use prediction_market::market::{Market, Position, Resolver, Status};
use prediction_market::settle::claim_prize;

const ADMIN: u64 = 9;
const SINK: u64 = 8;
const ALICE: u64 = 21;

fn schedule(clearing_bps: u16, settle_bps: u16) -> FeeSchedule {
    initialize_fee_schedule(ADMIN, SINK, 0, 0, clearing_bps, settle_bps).unwrap()
}

/// A settled two-option market built record by record, so the guard chain
/// and the arithmetic can be driven into corners the constructors would
/// refuse.
fn settled_market(totals: [u64; 2], outcome: usize, escrow: u64) -> Market {
    let total_pool = totals[0] + totals[1];
    Market {
        id: 1,
        creator: ALICE,
        question: String::from("q"),
        options: vec![String::from("yes"), String::from("no")],
        option_totals: totals.to_vec(),
        option_participant_counts: vec![1, 1],
        stake_amount: 0,
        bet_deadline: 1000,
        resolve_time: 2000,
        challenge_window: 50,
        resolver: Resolver::Optimistic,
        status: Status::Settled,
        proposed_outcome: None,
        proposer: None,
        challenge_end_time: None,
        final_outcome: Some(outcome),
        admin_resolved: false,
        total_pool,
        escrow,
    }
}

fn position(option_index: usize, amount: u64) -> Position {
    Position { market_id: 1, user: ALICE, option_index, amount, claimed: false, bet_count: 1 }
}

#[test]
fn claim_guard_chain() {
    let fs = schedule(0, 0);
    let mut market = settled_market([100, 300], 0, 400);
    let mut pos = position(0, 100);

    let mut not_settled = settled_market([100, 300], 0, 400);
    not_settled.status = Status::Open;
    not_settled.final_outcome = None;
    assert_eq!(
        claim_prize(&fs, &mut not_settled, &mut pos, ALICE),
        Err(Error::MarketNotSettled)
    );

    let mut stray = position(0, 100);
    stray.market_id = 2;
    assert_eq!(claim_prize(&fs, &mut market, &mut stray, ALICE), Err(Error::WrongMarket));

    assert_eq!(claim_prize(&fs, &mut market, &mut pos, 99), Err(Error::NotRecipient));

    let mut loser = position(1, 300);
    assert_eq!(claim_prize(&fs, &mut market, &mut loser, ALICE), Err(Error::NotWinner));
    assert!(!loser.claimed);

    claim_prize(&fs, &mut market, &mut pos, ALICE).unwrap();
    assert_eq!(claim_prize(&fs, &mut market, &mut pos, ALICE), Err(Error::AlreadyClaimed));
}

#[test]
fn empty_winning_pool_fails_no_winners() {
    let fs = schedule(0, 0);
    // the winning option holds nothing: a stray position claiming on it is
    // told there are no winners, and nothing is paid
    let mut market = settled_market([0, 300], 0, 300);
    let mut pos = position(0, 100);
    assert_eq!(claim_prize(&fs, &mut market, &mut pos, ALICE), Err(Error::NoWinners));
    assert!(!pos.claimed);
    assert_eq!(market.escrow, 300);
}

#[test]
fn oversized_share_fails_overflow() {
    let fs = schedule(0, 0);
    // a principal far beyond the winning pool would overflow the share:
    // the claim aborts rather than truncate
    let mut market = settled_market([1, u64::MAX - 1], 0, u64::MAX);
    let mut pos = position(0, u64::MAX / 2);
    assert_eq!(claim_prize(&fs, &mut market, &mut pos, ALICE), Err(Error::Overflow));
    assert!(!pos.claimed);
}

#[test]
fn drained_escrow_fails_insufficient_funds() {
    let fs = schedule(0, 0);
    let mut market = settled_market([100, 300], 0, 50);
    let mut pos = position(0, 100);
    assert_eq!(
        claim_prize(&fs, &mut market, &mut pos, ALICE),
        Err(Error::InsufficientFunds)
    );
    assert!(!pos.claimed);
    assert_eq!(market.escrow, 50);
}

#[test]
fn shares_divide_proportionally_and_round_down() {
    let fs = schedule(0, 0);
    // pool 1000, winning pool 300: stakes of 100 and 200 share 333 and 666
    let mut market = settled_market([300, 700], 0, 1000);
    let mut small = position(0, 100);
    let paid = claim_prize(&fs, &mut market, &mut small, ALICE).unwrap();
    assert_eq!(paid.payout, 333);
    let mut large = position(0, 200);
    let paid = claim_prize(&fs, &mut market, &mut large, ALICE).unwrap();
    assert_eq!(paid.payout, 666);
    // the rounding remainder stays in escrow
    assert_eq!(market.escrow, 1);
}

#[test]
fn clearing_fee_scales_with_the_share() {
    // 250 bps on a share of 400 takes 10
    let fs = schedule(250, 0);
    let mut market = settled_market([100, 300], 0, 400);
    let mut pos = position(0, 100);
    let paid = claim_prize(&fs, &mut market, &mut pos, ALICE).unwrap();
    assert_eq!(paid.clearing_fee, 10);
    assert_eq!(paid.payout, 390);
    assert_eq!(market.escrow, 0);
}
