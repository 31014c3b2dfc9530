//! Typed failure reasons shared by every operation.

use vstd::prelude::*;

verus! {

/// Reason an idea, voting, settlement, withdrawal, or market operation
/// was rejected.  No operation that returns one of these mutates any state.
#[derive(Clone, Copy, Debug, PartialEq, Eq, Structural)]
pub enum ConsensusError {
    /// The prompt is empty or longer than the accepted maximum.
    InvalidPrompt,
    /// The requested voting duration lies outside the accepted bounds.
    InvalidVotingDuration,
    /// The entity is not in the lifecycle state the operation requires.
    InvalidState,
    /// The oracle did not deliver exactly the expected number of images.
    InvalidImageCount,
    /// The caller is not the authorized oracle identity.
    UnauthorizedDePIN,
    /// A delivered image URI is empty or longer than the accepted maximum.
    InvalidImageUri,
    /// The chosen variant index is not a variant or the reject-all sentinel.
    InvalidImageIndex,
    /// The stake is below the idea's minimum stake.
    StakeTooLow,
    /// The voting deadline has already passed.
    VotingEnded,
    /// The voting deadline has not been reached yet.
    VotingNotEnded,
    /// The participant already withdrew winnings or a refund.
    AlreadyWithdrawn,
    /// The participant did not vote for the winning variant.
    NotWinner,
    /// No winning variant was recorded for the idea.
    NoWinner,
    /// A division by zero was attempted.
    DivisionByZero,
    /// An intermediate computation would overflow its integer type.
    Overflow,
    /// The caller is not permitted to perform the operation.
    Unauthorized,
    /// An amount is zero, below a minimum, or otherwise unusable.
    InvalidAmount,
    /// The theme does not exist or is not active.
    InvalidTheme,
    /// The computed output falls below the caller's slippage bound.
    SlippageExceeded,
    /// The market's reserves cannot cover the requested output.
    InsufficientReserves,
    /// The theme name or description is malformed.
    InvalidThemeMetadata,
    /// The token mint does not belong to the theme.
    InvalidMint,
}

/// Failure reasons of trading-configuration initialization.
#[derive(Clone, Copy, Debug, PartialEq, Eq, Structural)]
pub enum ErrorCode {
    /// The three fee splits do not add up to the full basis-point denominator.
    InvalidFeeSplits,
}

} // verus!
