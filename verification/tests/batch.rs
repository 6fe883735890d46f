//! The all-or-nothing batch force-close.

use prediction_market::betting::{create_market, place_bet};
use prediction_market::errors::Error;
use prediction_market::fees::{initialize_fee_schedule, FeeSchedule};
use prediction_market::market::{Market, Position, Resolver, Status};
use prediction_market::refunds::admin_force_close;

const ADMIN: u64 = 9;
const SINK: u64 = 8;
const ALICE: u64 = 21;
const BOB: u64 = 22;

fn schedule() -> FeeSchedule {
    initialize_fee_schedule(ADMIN, SINK, 0, 0, 0, 0).unwrap()
}

fn staked_market(fs: &mut FeeSchedule) -> (Market, Position, Position) {
    let options = vec![String::from("yes"), String::from("no")];
    let (mut market, _) = create_market(
        fs,
        ALICE,
        String::from("q"),
        options,
        0,
        1000,
        2000,
        50,
        Resolver::Optimistic,
        10,
    )
    .unwrap();
    let mut alice_pos: Option<Position> = None;
    place_bet(fs, &mut market, &mut alice_pos, ALICE, 0, 100, 20).unwrap();
    let mut bob_pos: Option<Position> = None;
    place_bet(fs, &mut market, &mut bob_pos, BOB, 1, 300, 21).unwrap();
    (market, alice_pos.unwrap(), bob_pos.unwrap())
}

#[test]
fn force_close_refunds_the_whole_batch() {
    let mut fs = schedule();
    let (mut market, alice, bob) = staked_market(&mut fs);
    let mut positions = vec![alice, bob];
    let recipients = vec![ALICE, BOB];
    let ev = admin_force_close(&fs, &mut market, &mut positions, &recipients, ADMIN).unwrap();
    assert_eq!(ev.total_refunded, 400);
    assert_eq!(ev.admin, ADMIN);
    assert!(positions.iter().all(|p| p.claimed));
    assert_eq!(market.escrow, 0);
    assert!(matches!(market.status, Status::Cancelled));
}

#[test]
fn force_close_is_admin_gated() {
    let mut fs = schedule();
    let (mut market, alice, _) = staked_market(&mut fs);
    let mut positions = vec![alice];
    assert_eq!(
        admin_force_close(&fs, &mut market, &mut positions, &vec![ALICE], BOB),
        Err(Error::NotAdmin)
    );
    assert!(matches!(market.status, Status::Open));
}

#[test]
fn force_close_rejects_a_ragged_batch() {
    let mut fs = schedule();
    let (mut market, alice, bob) = staked_market(&mut fs);
    let mut positions = vec![alice, bob];
    assert_eq!(
        admin_force_close(&fs, &mut market, &mut positions, &vec![ALICE], ADMIN),
        Err(Error::InvalidBatch)
    );
}

#[test]
fn one_bad_pair_aborts_the_whole_batch() {
    let mut fs = schedule();
    let (mut market, alice, bob) = staked_market(&mut fs);

    // a pair naming the wrong recipient
    let mut positions = vec![alice, bob];
    assert_eq!(
        admin_force_close(&fs, &mut market, &mut positions, &vec![ALICE, ALICE], ADMIN),
        Err(Error::NotRecipient)
    );
    assert!(positions.iter().all(|p| !p.claimed));
    assert_eq!(market.escrow, 400);
    assert!(matches!(market.status, Status::Open));

    // a pair from another market
    let stray = Position { market_id: 77, ..alice };
    let mut positions = vec![stray, bob];
    assert_eq!(
        admin_force_close(&fs, &mut market, &mut positions, &vec![ALICE, BOB], ADMIN),
        Err(Error::WrongMarket)
    );

    // a pair already claimed
    let done = Position { claimed: true, ..alice };
    let mut positions = vec![bob, done];
    assert_eq!(
        admin_force_close(&fs, &mut market, &mut positions, &vec![BOB, ALICE], ADMIN),
        Err(Error::AlreadyClaimed)
    );
    assert_eq!(market.escrow, 400);

    // a pair with nothing staked
    let empty = Position { amount: 0, ..alice };
    let mut positions = vec![empty, bob];
    assert_eq!(
        admin_force_close(&fs, &mut market, &mut positions, &vec![ALICE, BOB], ADMIN),
        Err(Error::InvalidAmount)
    );
}

#[test]
fn a_position_listed_twice_aborts_the_batch() {
    let mut fs = schedule();
    let (mut market, alice, bob) = staked_market(&mut fs);
    let mut positions = vec![alice, bob, alice];
    let recipients = vec![ALICE, BOB, ALICE];
    assert_eq!(
        admin_force_close(&fs, &mut market, &mut positions, &recipients, ADMIN),
        Err(Error::AlreadyClaimed)
    );
    assert!(positions.iter().all(|p| !p.claimed));
    assert_eq!(market.escrow, 400);
}

#[test]
fn force_close_spares_terminal_markets() {
    let mut fs = schedule();
    let (mut market, alice, _) = staked_market(&mut fs);
    market.status = Status::Settled;
    market.final_outcome = Some(0);
    let mut positions = vec![alice];
    assert_eq!(
        admin_force_close(&fs, &mut market, &mut positions, &vec![ALICE], ADMIN),
        Err(Error::MarketAlreadySettled)
    );
    market.status = Status::Cancelled;
    market.final_outcome = None;
    assert_eq!(
        admin_force_close(&fs, &mut market, &mut positions, &vec![ALICE], ADMIN),
        Err(Error::MarketAlreadyCancelled)
    );
}

#[test]
fn an_underfunded_escrow_aborts_the_batch() {
    let mut fs = schedule();
    let (mut market, alice, bob) = staked_market(&mut fs);
    market.escrow = 399;
    let mut positions = vec![alice, bob];
    assert_eq!(
        admin_force_close(&fs, &mut market, &mut positions, &vec![ALICE, BOB], ADMIN),
        Err(Error::InsufficientFunds)
    );
    assert!(positions.iter().all(|p| !p.claimed));
}

#[test]
fn an_overflowing_batch_total_aborts() {
    let mut fs = schedule();
    let (mut market, _, _) = staked_market(&mut fs);
    // two fabricated giants whose sum exceeds the value range
    market.option_totals = vec![u64::MAX, 0];
    market.total_pool = u64::MAX;
    market.escrow = u64::MAX;
    let giant_a = Position {
        market_id: market.id,
        user: ALICE,
        option_index: 0,
        amount: u64::MAX - 1,
        claimed: false,
        bet_count: 1,
    };
    let giant_b = Position { user: BOB, amount: 2, ..giant_a };
    let mut positions = vec![giant_a, giant_b];
    assert_eq!(
        admin_force_close(&fs, &mut market, &mut positions, &vec![ALICE, BOB], ADMIN),
        Err(Error::Overflow)
    );
    assert!(positions.iter().all(|p| !p.claimed));
}

#[test]
fn an_empty_batch_just_cancels() {
    let mut fs = schedule();
    let (mut market, _, _) = staked_market(&mut fs);
    let mut positions: Vec<Position> = Vec::new();
    let ev = admin_force_close(&fs, &mut market, &mut positions, &Vec::new(), ADMIN).unwrap();
    assert_eq!(ev.total_refunded, 0);
    assert!(matches!(market.status, Status::Cancelled));
    assert_eq!(market.escrow, 400);
}
