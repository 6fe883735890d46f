//! The typed failures of the engine.
//!
//! Every public operation is all-or-nothing: a failure aborts the call with
//! zero state change, and no error is ever retried by the engine itself.

use vstd::prelude::*;

verus! {

/// Why an engine operation was rejected.
///
/// The variants fall into five groups:
/// - validation errors (bad input shape or range) — the caller must correct
///   the input and resubmit;
/// - state errors (the operation is not valid for the market's current
///   status) — the caller must wait, or the operation is permanently
///   inapplicable;
/// - authorization errors (the acting identity lacks the required standing);
/// - arithmetic errors — a checked operation overflowed, never silently
///   saturated;
/// - resource errors — the escrow cannot cover a transfer.
#[derive(Clone, Copy, Debug, PartialEq, Eq, Structural)]
pub enum Error {
    // Validation.
    /// The question exceeds the question length bound.
    QuestionTooLong,
    /// Fewer than two or more than the maximum number of options.
    InvalidOptionsCount,
    /// An option label exceeds the label length bound.
    OptionTooLong,
    /// A fixed stake below the minimum-dust threshold.
    StakeTooSmall,
    /// The betting deadline is not in the future.
    InvalidBetDeadline,
    /// The resolve time lies before the betting deadline.
    InvalidResolveTime,
    /// The challenge window is not a positive duration.
    InvalidChallengeWindow,
    /// The option index is not below the market's option count.
    InvalidOptionIndex,
    /// A zero amount, or one that does not match the market's fixed stake.
    InvalidAmount,
    /// A zero price where a positive one is required.
    InvalidPrice,
    /// The zero identity where a real one is required.
    InvalidIdentity,
    /// A fee rate above the whole (10000 basis points).
    InvalidFeeRate,
    /// A refund batch whose position and recipient lists differ in length.
    InvalidBatch,
    /// A repeat stake on a different option than the position's first stake.
    CannotChangeOption,

    // State.
    /// The market's status is not Open.
    MarketNotOpen,
    /// The betting deadline has passed.
    BettingClosed,
    /// The market's status is not Proposed.
    MarketNotProposed,
    /// The market's status is not Disputed.
    MarketNotDisputed,
    /// The market's status is not Settled.
    MarketNotSettled,
    /// The market is already Settled, a terminal state.
    MarketAlreadySettled,
    /// The market is already Cancelled, a terminal state.
    MarketAlreadyCancelled,
    /// The challenge window has ended.
    ChallengeWindowClosed,
    /// The challenge window has not ended yet.
    ChallengeWindowNotEnded,
    /// The timeout-refund grace period has not elapsed yet.
    GracePeriodNotElapsed,
    /// The market's status is not Cancelled.
    MarketNotCancelled,
    /// The resolve time has not been reached yet.
    ResolveTimeNotReached,
    /// The position has already been paid out or refunded.
    AlreadyClaimed,
    /// The winning option holds no stake, so no payout can be computed.
    NoWinners,
    /// The market holds no stake at all, so there is nothing to settle.
    NoParticipants,
    /// The operation belongs to the other resolution strategy.
    ResolverMismatch,

    // Authorization.
    /// The caller is not the protocol admin.
    NotAdmin,
    /// The caller holds no live stake in the market.
    NotABettor,
    /// The position does not belong to the named recipient.
    NotRecipient,
    /// The position's option is not the final outcome.
    NotWinner,
    /// The caller is not the market's designated oracle.
    UnauthorizedOracle,
    /// The position does not belong to this market.
    WrongMarket,

    // Arithmetic.
    /// A checked arithmetic operation overflowed.
    Overflow,

    // Resources.
    /// The escrow's current holdings cannot cover the transfer.
    InsufficientFunds,
}

} // verus!
