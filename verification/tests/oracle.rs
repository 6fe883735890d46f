//! The oracle resolution path: one authoritative price submission.

use prediction_market::betting::{create_market, place_bet};
use prediction_market::errors::Error;
use prediction_market::fees::{initialize_fee_schedule, FeeSchedule};
use prediction_market::market::{Market, Position, Resolver, Status};
use prediction_market::resolve::{propose_outcome, settle_with_price};
use prediction_market::settle::claim_prize;

const ADMIN: u64 = 9;
const SINK: u64 = 8;
const ALICE: u64 = 21;
const BOB: u64 = 22;
const ORACLE: u64 = 33;

fn schedule(settle_bps: u16) -> FeeSchedule {
    initialize_fee_schedule(ADMIN, SINK, 0, 0, 0, settle_bps).unwrap()
}

fn call_put_market(fs: &mut FeeSchedule, target_price: u64) -> Market {
    let options = vec![String::from("call"), String::from("put")];
    let (market, _) = create_market(
        fs,
        ALICE,
        String::from("above the target at expiry"),
        options,
        0,
        1000,
        2000,
        50,
        Resolver::Oracle { oracle: ORACLE, target_price },
        10,
    )
    .unwrap();
    market
}

#[test]
fn oracle_settles_above_target_for_the_call_side() {
    let mut fs = schedule(0);
    let mut market = call_put_market(&mut fs, 500);
    let mut alice_pos: Option<Position> = None;
    place_bet(&fs, &mut market, &mut alice_pos, ALICE, 0, 100, 20).unwrap();
    let mut bob_pos: Option<Position> = None;
    place_bet(&fs, &mut market, &mut bob_pos, BOB, 1, 300, 21).unwrap();

    // only the designated oracle, only at or after the resolve time
    assert_eq!(
        settle_with_price(&fs, &mut market, BOB, 600, 2000),
        Err(Error::UnauthorizedOracle)
    );
    assert_eq!(
        settle_with_price(&fs, &mut market, ORACLE, 600, 1999),
        Err(Error::ResolveTimeNotReached)
    );
    assert_eq!(
        settle_with_price(&fs, &mut market, ORACLE, 0, 2000),
        Err(Error::InvalidPrice)
    );

    let settled = settle_with_price(&fs, &mut market, ORACLE, 600, 2000).unwrap();
    assert_eq!(settled.outcome, 0);
    assert_eq!(settled.settled_by, ORACLE);
    assert_eq!(settled.final_price, Some(600));
    assert!(!settled.admin_resolved);
    assert!(matches!(market.status, Status::Settled));
    assert_eq!(market.final_outcome, Some(0));

    // a second submission finds the market settled
    assert_eq!(
        settle_with_price(&fs, &mut market, ORACLE, 600, 2001),
        Err(Error::MarketNotOpen)
    );

    // the call side claims the whole pool: 400 * 100 / 100, no fees
    let mut alice = alice_pos.unwrap();
    let paid = claim_prize(&fs, &mut market, &mut alice, ALICE).unwrap();
    assert_eq!(paid.payout, 400);
    assert_eq!(paid.clearing_fee, 0);
}

#[test]
fn oracle_settles_at_or_below_target_for_the_put_side() {
    let mut fs = schedule(0);
    // exactly the target price counts as not above: the put side wins
    let mut market = call_put_market(&mut fs, 500);
    let mut bob_pos: Option<Position> = None;
    place_bet(&fs, &mut market, &mut bob_pos, BOB, 1, 300, 21).unwrap();
    let settled = settle_with_price(&fs, &mut market, ORACLE, 500, 2000).unwrap();
    assert_eq!(settled.outcome, 1);

    let mut bob = bob_pos.unwrap();
    let paid = claim_prize(&fs, &mut market, &mut bob, BOB).unwrap();
    assert_eq!(paid.payout, 300);
}

#[test]
fn an_empty_market_cannot_be_settled() {
    let mut fs = schedule(0);
    let mut market = call_put_market(&mut fs, 500);
    // nobody ever staked: there is nothing to settle
    assert_eq!(
        settle_with_price(&fs, &mut market, ORACLE, 600, 2000),
        Err(Error::NoParticipants)
    );
    assert!(matches!(market.status, Status::Open));
    assert_eq!(market.final_outcome, None);
}

#[test]
fn oracle_settlement_fee_comes_out_of_the_escrow() {
    let mut fs = schedule(100);
    let mut market = call_put_market(&mut fs, 500);
    let mut bob_pos: Option<Position> = None;
    place_bet(&fs, &mut market, &mut bob_pos, BOB, 1, 400, 21).unwrap();
    let settled = settle_with_price(&fs, &mut market, ORACLE, 100, 2000).unwrap();
    assert_eq!(settled.settle_fee, 4);
    assert_eq!(market.escrow, 396);
    assert_eq!(market.total_pool, 400);
}

#[test]
fn resolvers_do_not_cross() {
    let mut fs = schedule(0);
    let mut oracle_market = call_put_market(&mut fs, 500);
    let mut pos: Option<Position> = None;
    place_bet(&fs, &mut oracle_market, &mut pos, ALICE, 0, 100, 20).unwrap();
    let alice = pos.unwrap();
    // an oracle market takes no proposal
    assert_eq!(
        propose_outcome(&mut oracle_market, &alice, ALICE, 0, 100),
        Err(Error::ResolverMismatch)
    );

    // an optimistic market takes no price submission
    let options = vec![String::from("yes"), String::from("no")];
    let (mut optimistic, _) = create_market(
        &mut fs,
        ALICE,
        String::from("q"),
        options,
        0,
        1000,
        2000,
        50,
        Resolver::Optimistic,
        10,
    )
    .unwrap();
    assert_eq!(
        settle_with_price(&fs, &mut optimistic, ORACLE, 600, 2000),
        Err(Error::ResolverMismatch)
    );
}
