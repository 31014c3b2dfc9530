//! Fixed protocol configuration constants.

use vstd::prelude::*;

verus! {

/// Denominator for all basis-point (1/10000) fractions.
pub const BPS_DENOMINATOR: u16 = 10_000;

/// Minimum number of voters required for a vote to settle.
pub const MIN_REVIEWERS: u64 = 10;

/// Curator fee taken from the stake pool at settlement, in basis points.
pub const CURATOR_FEE_BPS: u16 = 100;

/// Penalty share of the post-fee pool distributed to winners, in basis points.
pub const PENALTY_BPS: u16 = 5_000;

/// Platform fee taken from the stake pool at settlement, in basis points.
pub const PLATFORM_FEE_BPS: u16 = 200;

/// Longest accepted idea prompt, in bytes.
pub const MAX_PROMPT_LEN: usize = 512;

/// Longest accepted candidate-image URI, in bytes.
pub const MAX_IMAGE_URI_LEN: usize = 128;

/// Length of a theme's fixed-size name field, in bytes.
pub const MAX_THEME_NAME_LEN: usize = 12;

/// Length of a theme's fixed-size description field, in bytes.
pub const MAX_THEME_DESCRIPTION_LEN: usize = 48;

/// Smallest accepted stake, denominated in theme tokens.
pub const MIN_TOKEN_STAKE: u64 = 1_000_000;

/// Flat fee charged to the initiator when an idea is created.
pub const CREATION_FEE: u64 = 5_000_000;

/// Reject-all weight share that cancels an idea, in basis points (two thirds).
pub const REJECT_ALL_THRESHOLD_BPS: u16 = 6_667;

/// Seconds the oracle has to deliver images after idea creation.
pub const IMAGE_GENERATION_TIMEOUT: i64 = 24 * 3600;

/// Default length of the voting window, in seconds.
pub const DEFAULT_VOTING_DURATION: i64 = 72 * 3600;

/// Total token supply minted for every theme (1B tokens at 6 decimals).
pub const TOKEN_TOTAL_SUPPLY: u64 = 1_000_000_000_000_000;

/// Decimal places of a theme token.
pub const TOKEN_DECIMALS: u8 = 6;

/// Share of the total supply reserved for the theme creator, in percent.
pub const CREATOR_RESERVE_PERCENT: u8 = 20;

/// Share of the total supply put into circulation, in percent.
pub const CIRCULATING_PERCENT: u8 = 80;

/// Token reserves a theme market starts with (80% of the total supply).
pub const INITIAL_TOKEN_RESERVES: u64 = 800_000_000_000_000;

/// Base-currency reserves a theme market starts with.
pub const INITIAL_SOL_RESERVES: u64 = 0;

/// Default trade fee charged by the bonding curve, in basis points.
pub const TRADE_FEE_BPS: u16 = 100;

/// Default share of trade fees routed to the buyback pool, in basis points.
pub const BUYBACK_FEE_SPLIT_BPS: u16 = 5_000;

/// Default share of trade fees routed to the platform, in basis points.
pub const PLATFORM_FEE_SPLIT_BPS: u16 = 3_000;

/// Default share of trade fees routed to the theme creator, in basis points.
pub const CREATOR_FEE_SPLIT_BPS: u16 = 2_000;

/// Smallest buyback pool that may be spent on a buyback.
pub const BUYBACK_THRESHOLD: u64 = 100_000_000;

/// Share of the post-fee settlement pool forwarded to the buyback pool,
/// in basis points.
pub const SETTLEMENT_BUYBACK_BPS: u16 = 500;

/// Smallest accepted base-currency trade.
pub const MIN_SOL_TRADE: u64 = 1_000_000;

/// Voting-mode tag for classic (most weight wins) voting.
pub const VOTING_MODE_CLASSIC: u8 = 0;

/// Voting-mode tag for reverse (least weight wins) voting.
pub const VOTING_MODE_REVERSE: u8 = 1;

/// Voting-mode tag for middle-way voting.
pub const VOTING_MODE_MIDDLE_WAY: u8 = 2;

/// Status tag for an active theme market.
pub const THEME_STATUS_ACTIVE: u8 = 0;

/// Status tag for a paused theme market.
pub const THEME_STATUS_PAUSED: u8 = 1;

} // verus!
