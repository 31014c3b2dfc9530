//! Structured event records emitted after each state transition.
//!
//! The library does not interpret these: the hosting layer fills them from
//! an operation's inputs and outcome and hands them to its event sink,
//! where off-chain indexers consume them.

use vstd::prelude::*;

verus! {

/// An idea was created.
#[derive(Clone, Debug, PartialEq, Eq)]
pub struct IdeaCreated {
    /// Key of the new idea.
    pub idea: u64,
    /// Identity of the initiator.
    pub initiator: u64,
    /// Prompt submitted to the oracle.
    pub prompt: Vec<u8>,
    /// Oracle provider chosen for the idea.
    pub depin_provider: u64,
}

/// A sponsored idea was created with a funded prize pool.
#[derive(Clone, Debug, PartialEq, Eq)]
pub struct SponsoredIdeaCreated {
    /// Key of the new idea.
    pub idea: u64,
    /// Identity of the initiator.
    pub initiator: u64,
    /// Identity of the sponsor funding the prize pool.
    pub sponsor: u64,
    /// Prompt submitted to the oracle.
    pub prompt: Vec<u8>,
    /// Prize pool moved into the idea's vault up front.
    pub initial_prize_pool: u64,
    /// Oracle provider chosen for the idea.
    pub depin_provider: u64,
}

/// The oracle delivered the candidate images and voting opened.
#[derive(Clone, Debug, PartialEq, Eq)]
pub struct ImagesGenerated {
    /// Key of the idea.
    pub idea: u64,
    /// The four candidate image URIs.
    pub image_uris: Vec<Vec<u8>>,
}

/// A participant staked and voted.
#[derive(Clone, Copy, Debug, PartialEq, Eq, Structural)]
pub struct VoteCast {
    /// Key of the idea.
    pub idea: u64,
    /// Identity of the voter.
    pub voter: u64,
    /// Chosen image 0..=3, or 255 for reject-all.
    pub image_choice: u8,
    /// Tokens staked with the vote.
    pub stake_amount: u64,
}

/// An idea was cancelled by its initiator or by timeout.
#[derive(Clone, Debug, PartialEq, Eq)]
pub struct IdeaCancelled {
    /// Key of the idea.
    pub idea: u64,
    /// Human-readable reason.
    pub reason: Vec<u8>,
}

/// Voting settled with a winner and a frozen fee split.
#[derive(Clone, Copy, Debug, PartialEq, Eq, Structural)]
pub struct VotingSettled {
    /// Key of the idea.
    pub idea: u64,
    /// The winning image.
    pub winning_image_index: u8,
    /// Total tokens staked over the idea's lifetime.
    pub total_staked: u64,
    /// Curator fee paid to the initiator.
    pub curator_fee: u64,
    /// Platform fee paid to the protocol treasury.
    pub platform_fee: u64,
    /// Penalty pool left for winners.
    pub penalty_pool: u64,
    /// Vote weight of the winning image.
    pub winner_count: u64,
}

/// A winner withdrew stake plus penalty share.
#[derive(Clone, Copy, Debug, PartialEq, Eq, Structural)]
pub struct WinningsWithdrawn {
    /// Key of the idea.
    pub idea: u64,
    /// Identity of the participant paid out.
    pub reviewer: u64,
    /// Amount paid out.
    pub amount: u64,
}

/// Settlement cancelled the vote instead of completing it.
#[derive(Clone, Debug, PartialEq, Eq)]
pub struct VotingCancelled {
    /// Key of the idea.
    pub idea: u64,
    /// Human-readable reason.
    pub reason: Vec<u8>,
}

/// A participant of a cancelled idea withdrew the full stake back.
#[derive(Clone, Copy, Debug, PartialEq, Eq, Structural)]
pub struct RefundWithdrawn {
    /// Key of the idea.
    pub idea: u64,
    /// Identity of the participant refunded.
    pub reviewer: u64,
    /// Amount refunded.
    pub amount: u64,
}

/// A theme market was created and its token minted.
#[derive(Clone, Copy, Debug, PartialEq, Eq, Structural)]
pub struct ThemeCreated {
    /// Key of the theme.
    pub theme: u64,
    /// Identity of the creator.
    pub creator: u64,
    /// Mint key of the theme's token.
    pub token_mint: u64,
    /// Default voting-mode tag for the theme's ideas.
    pub voting_mode: u8,
    /// Total token supply minted.
    pub total_supply: u64,
}

/// A buy or sell executed on a theme's curve.
#[derive(Clone, Copy, Debug, PartialEq, Eq, Structural)]
pub struct TokensSwapped {
    /// Key of the theme.
    pub theme: u64,
    /// Identity of the trader.
    pub user: u64,
    /// Base currency side of the trade.
    pub sol_amount: u64,
    /// Token side of the trade.
    pub token_amount: u64,
    /// True for a buy, false for a sell.
    pub is_buy: bool,
    /// Base-currency reserves after the trade.
    pub new_sol_reserves: u64,
    /// Token reserves after the trade.
    pub new_token_reserves: u64,
}

/// A buyback spent the pool and burned the repurchased tokens.
#[derive(Clone, Copy, Debug, PartialEq, Eq, Structural)]
pub struct BuybackExecuted {
    /// Key of the theme.
    pub theme: u64,
    /// Base currency spent from the buyback pool.
    pub sol_spent: u64,
    /// Tokens burned.
    pub tokens_burned: u64,
    /// Token reserves after the buyback.
    pub new_token_reserves: u64,
}

} // verus!
