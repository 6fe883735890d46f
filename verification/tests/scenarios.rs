//! End-to-end scenarios: a full optimistic market round, double claims,
//! disputes, and timeout refunds.

use prediction_market::betting::{create_market, place_bet};
use prediction_market::errors::Error;
use prediction_market::fees::{initialize_fee_schedule, FeeSchedule};
use prediction_market::market::{Market, Position, Resolver, Status, GRACE_PERIOD};
use prediction_market::refunds::{admin_cancel_market, claim_cancelled_refund, refund_expired};
use prediction_market::resolve::{challenge_outcome, finalize_settlement, propose_outcome, resolve_dispute};
use prediction_market::settle::claim_prize;

const ADMIN: u64 = 9;
const SINK: u64 = 8;
const ALICE: u64 = 21;
const BOB: u64 = 22;

fn schedule(join_bps: u16, clearing_bps: u16, settle_bps: u16) -> FeeSchedule {
    initialize_fee_schedule(ADMIN, SINK, 0, join_bps, clearing_bps, settle_bps).unwrap()
}

fn yes_no_market(fs: &mut FeeSchedule) -> Market {
    let options = vec![String::from("yes"), String::from("no")];
    let (market, receipt) = create_market(
        fs,
        ALICE,
        String::from("will it rain tomorrow"),
        options,
        0,
        1000,
        2000,
        50,
        Resolver::Optimistic,
        10,
    )
    .unwrap();
    assert_eq!(receipt.market_id, market.id);
    market
}

#[test]
fn scenario_proportional_payout() {
    // Two sides, 100 on "yes" and 300 on "no", no join fee; "yes" settles;
    // the winner's share is 400 * 100 / 100 = 400, the 100 bps clearing fee
    // takes 4, the payout is 396.
    let mut fs = schedule(0, 100, 0);
    let mut market = yes_no_market(&mut fs);
    let mut alice_pos: Option<Position> = None;
    let ev = place_bet(&fs, &mut market, &mut alice_pos, ALICE, 0, 100, 20).unwrap();
    assert_eq!(ev.join_fee, 0);
    let mut bob_pos: Option<Position> = None;
    place_bet(&fs, &mut market, &mut bob_pos, BOB, 1, 300, 21).unwrap();
    assert_eq!(market.total_pool, 400);
    assert_eq!(market.escrow, 400);
    assert_eq!(market.option_totals, vec![100, 300]);
    assert_eq!(market.option_participant_counts, vec![1, 1]);

    let alice = alice_pos.unwrap();
    propose_outcome(&mut market, &alice, ALICE, 0, 1100).unwrap();
    let settled = finalize_settlement(&fs, &mut market, &alice, ALICE, 1150).unwrap();
    assert_eq!(settled.outcome, 0);
    assert_eq!(settled.settle_fee, 0);
    assert_eq!(settled.settled_by, ALICE);
    assert_eq!(settled.final_price, None);
    assert!(!settled.admin_resolved);
    assert!(matches!(market.status, Status::Settled));

    let mut alice = alice;
    let paid = claim_prize(&fs, &mut market, &mut alice, ALICE).unwrap();
    assert_eq!(paid.payout, 396);
    assert_eq!(paid.clearing_fee, 4);
    assert!(alice.claimed);
    assert_eq!(market.escrow, 0);
    assert_eq!(market.total_pool, 400);

    // the loser is no winner
    let mut bob = bob_pos.unwrap();
    assert_eq!(claim_prize(&fs, &mut market, &mut bob, BOB), Err(Error::NotWinner));
    assert!(!bob.claimed);
}

#[test]
fn scenario_settlement_fee_comes_off_the_pool() {
    // 100 bps settlement fee on the 400 pool leaves 396 to divide; the sole
    // winner's share is 396, the 100 bps clearing fee takes 3 (rounded
    // down), the payout is 393.
    let mut fs = schedule(0, 100, 100);
    let mut market = yes_no_market(&mut fs);
    let mut alice_pos: Option<Position> = None;
    place_bet(&fs, &mut market, &mut alice_pos, ALICE, 0, 100, 20).unwrap();
    let mut bob_pos: Option<Position> = None;
    place_bet(&fs, &mut market, &mut bob_pos, BOB, 1, 300, 21).unwrap();

    let alice = alice_pos.unwrap();
    propose_outcome(&mut market, &alice, ALICE, 0, 1100).unwrap();
    let settled = finalize_settlement(&fs, &mut market, &alice, ALICE, 1150).unwrap();
    assert_eq!(settled.settle_fee, 4);
    assert_eq!(market.escrow, 396);

    let mut alice = alice;
    let paid = claim_prize(&fs, &mut market, &mut alice, ALICE).unwrap();
    assert_eq!(paid.payout, 393);
    assert_eq!(paid.clearing_fee, 3);
    assert_eq!(market.escrow, 0);
}

#[test]
fn scenario_claim_then_refund_fails_already_claimed() {
    // A position that claimed its prize cannot also be refunded: the second
    // call fails AlreadyClaimed whatever the path.
    let mut fs = schedule(0, 100, 0);
    let mut market = yes_no_market(&mut fs);
    let mut alice_pos: Option<Position> = None;
    place_bet(&fs, &mut market, &mut alice_pos, ALICE, 0, 100, 20).unwrap();
    let mut bob_pos: Option<Position> = None;
    place_bet(&fs, &mut market, &mut bob_pos, BOB, 1, 300, 21).unwrap();

    let alice = alice_pos.unwrap();
    propose_outcome(&mut market, &alice, ALICE, 0, 1100).unwrap();
    finalize_settlement(&fs, &mut market, &alice, ALICE, 1150).unwrap();
    let mut alice = alice;
    claim_prize(&fs, &mut market, &mut alice, ALICE).unwrap();

    assert_eq!(
        claim_cancelled_refund(&mut market, &mut alice, ALICE),
        Err(Error::AlreadyClaimed)
    );
    assert_eq!(
        refund_expired(&mut market, &mut alice, ALICE, 2000 + GRACE_PERIOD),
        Err(Error::AlreadyClaimed)
    );
    assert_eq!(claim_prize(&fs, &mut market, &mut alice, ALICE), Err(Error::AlreadyClaimed));
}

#[test]
fn scenario_dispute_goes_to_the_admin() {
    // Propose at t, challenge at t + 1 before the window ends: Disputed.
    // The admin resolves: Settled with the admin-resolution flag.  A later
    // finalize by a bettor fails, the market being no longer Proposed.
    let mut fs = schedule(0, 0, 0);
    let mut market = yes_no_market(&mut fs);
    let mut alice_pos: Option<Position> = None;
    place_bet(&fs, &mut market, &mut alice_pos, ALICE, 0, 100, 20).unwrap();
    let mut bob_pos: Option<Position> = None;
    place_bet(&fs, &mut market, &mut bob_pos, BOB, 1, 300, 21).unwrap();

    let alice = alice_pos.unwrap();
    let bob = bob_pos.unwrap();
    propose_outcome(&mut market, &alice, ALICE, 0, 1100).unwrap();
    challenge_outcome(&mut market, &bob, BOB, 1101).unwrap();
    assert!(matches!(market.status, Status::Disputed));

    // only the admin may resolve a dispute
    assert_eq!(resolve_dispute(&fs, &mut market, BOB, 1), Err(Error::NotAdmin));
    let settled = resolve_dispute(&fs, &mut market, ADMIN, 1).unwrap();
    assert!(settled.admin_resolved);
    assert_eq!(settled.settled_by, ADMIN);
    assert_eq!(settled.final_price, None);
    assert!(matches!(market.status, Status::Settled));
    assert_eq!(market.final_outcome, Some(1));
    assert!(market.admin_resolved);

    assert_eq!(
        finalize_settlement(&fs, &mut market, &alice, ALICE, 2000),
        Err(Error::MarketNotProposed)
    );
}

#[test]
fn scenario_timeout_refund_after_grace() {
    // No proposal is ever made; once the grace period after resolve_time
    // has elapsed, every bettor reclaims the full principal.  A later
    // proposal attempt fails: the refunded positions are no live stake.
    let mut fs = schedule(0, 0, 0);
    let mut market = yes_no_market(&mut fs);
    let mut alice_pos: Option<Position> = None;
    place_bet(&fs, &mut market, &mut alice_pos, ALICE, 0, 100, 20).unwrap();
    let mut bob_pos: Option<Position> = None;
    place_bet(&fs, &mut market, &mut bob_pos, BOB, 1, 300, 21).unwrap();

    let mut alice = alice_pos.unwrap();
    let mut bob = bob_pos.unwrap();
    let at = 2000 + GRACE_PERIOD;

    // one tick early is too early
    assert_eq!(
        refund_expired(&mut market, &mut alice, ALICE, at - 1),
        Err(Error::GracePeriodNotElapsed)
    );

    let r1 = refund_expired(&mut market, &mut alice, ALICE, at).unwrap();
    assert_eq!(r1.amount, 100);
    let r2 = refund_expired(&mut market, &mut bob, BOB, at).unwrap();
    assert_eq!(r2.amount, 300);
    assert_eq!(market.escrow, 0);
    assert!(alice.claimed && bob.claimed);

    assert_eq!(
        propose_outcome(&mut market, &alice, ALICE, 0, at + 1),
        Err(Error::NotABettor)
    );
}

#[test]
fn scenario_cancelled_market_refunds_in_full() {
    let mut fs = schedule(0, 100, 100);
    let mut market = yes_no_market(&mut fs);
    let mut alice_pos: Option<Position> = None;
    place_bet(&fs, &mut market, &mut alice_pos, ALICE, 0, 100, 20).unwrap();
    let mut alice = alice_pos.unwrap();

    assert_eq!(
        claim_cancelled_refund(&mut market, &mut alice, ALICE),
        Err(Error::MarketNotCancelled)
    );
    assert_eq!(admin_cancel_market(&fs, &mut market, BOB), Err(Error::NotAdmin));
    let ev = admin_cancel_market(&fs, &mut market, ADMIN).unwrap();
    assert_eq!(ev.admin, ADMIN);
    assert!(matches!(market.status, Status::Cancelled));

    // cancelling twice is rejected; the refund pays the full principal
    assert_eq!(
        admin_cancel_market(&fs, &mut market, ADMIN),
        Err(Error::MarketAlreadyCancelled)
    );
    let r = claim_cancelled_refund(&mut market, &mut alice, ALICE).unwrap();
    assert_eq!(r.amount, 100);
    assert_eq!(market.escrow, 0);
    assert_eq!(
        claim_cancelled_refund(&mut market, &mut alice, ALICE),
        Err(Error::AlreadyClaimed)
    );
}

#[test]
fn bet_deadline_is_an_exact_boundary() {
    let mut fs = schedule(0, 0, 0);
    let mut market = yes_no_market(&mut fs);
    // deadline is 1000: one tick before passes, the deadline itself and
    // anything later fail BettingClosed
    let mut pos: Option<Position> = None;
    place_bet(&fs, &mut market, &mut pos, ALICE, 0, 100, 999).unwrap();
    let mut late: Option<Position> = None;
    assert_eq!(
        place_bet(&fs, &mut market, &mut late, BOB, 1, 100, 1000),
        Err(Error::BettingClosed)
    );
    assert_eq!(
        place_bet(&fs, &mut market, &mut late, BOB, 1, 100, 5000),
        Err(Error::BettingClosed)
    );
    assert!(late.is_none());
    assert_eq!(market.total_pool, 100);
}

#[test]
fn challenge_window_is_an_exact_boundary() {
    // window of 50 opened at 1100 ends at 1150: 1149 succeeds, 1150 fails
    let mut fs = schedule(0, 0, 0);
    let mut market_a = yes_no_market(&mut fs);
    let mut market_b = yes_no_market(&mut fs);
    for market in [&mut market_a, &mut market_b] {
        let mut alice_pos: Option<Position> = None;
        place_bet(&fs, market, &mut alice_pos, ALICE, 0, 100, 20).unwrap();
        let alice = alice_pos.unwrap();
        propose_outcome(market, &alice, ALICE, 0, 1100).unwrap();
    }
    let bob_a = Position {
        market_id: market_a.id,
        user: BOB,
        option_index: 1,
        amount: 5,
        claimed: false,
        bet_count: 1,
    };
    let bob_b = Position { market_id: market_b.id, ..bob_a };

    assert_eq!(
        challenge_outcome(&mut market_a, &bob_a, BOB, 1150),
        Err(Error::ChallengeWindowClosed)
    );
    assert!(matches!(market_a.status, Status::Proposed));
    challenge_outcome(&mut market_b, &bob_b, BOB, 1149).unwrap();
    assert!(matches!(market_b.status, Status::Disputed));
}

#[test]
fn market_ids_strictly_increase() {
    let mut fs = schedule(0, 0, 0);
    assert_eq!(fs.next_market_id, 1);
    let a = yes_no_market(&mut fs);
    let b = yes_no_market(&mut fs);
    let c = yes_no_market(&mut fs);
    assert_eq!((a.id, b.id, c.id), (1, 2, 3));
    assert_eq!(fs.next_market_id, 4);
}
