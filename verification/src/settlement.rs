//! Settlement engine and withdrawal resolver.
//!
//! `settle_voting` runs exactly once per idea when the voting deadline has
//! passed: it cancels under-attended, supermajority-rejected, or tied votes,
//! and otherwise freezes the winning image and the fee split.  The resolver
//! computes each participant's one-time payout from the frozen outputs.
//!
//! Custody movements (fee transfers out of the idea's vault, payouts) are
//! performed by the caller in the same atomic transaction; the amounts owed
//! are returned and fixed by the contracts here.

use vstd::prelude::*;

use crate::config::{
    BPS_DENOMINATOR, MIN_REVIEWERS, PENALTY_BPS, PLATFORM_FEE_BPS, REJECT_ALL_THRESHOLD_BPS,
    SETTLEMENT_BUYBACK_BPS, VOTING_MODE_CLASSIC, VOTING_MODE_MIDDLE_WAY, VOTING_MODE_REVERSE,
};
use crate::errors::ConsensusError;
use crate::idea::{Idea, IdeaStatus, ReviewerStake, Vote, total_vote_weight};
use crate::math::{bps_share, lemma_bps_share_bounds, lemma_mul_div_le};

verus! {

/// How the winning image is chosen from the four weight accumulators.
#[derive(Clone, Copy, Debug, PartialEq, Eq, Structural)]
pub enum VotingMode {
    /// The image with the most weight wins.
    Classic,
    /// The image with the least weight wins.
    Reverse,
    /// Resolved identically to `Classic` here: the maximum-weight image is
    /// the sole winner; dual-winner splitting is not implemented.
    MiddleWay,
}

impl VotingMode {
    /// Decodes the persisted tag; `None` for an unknown tag.
    pub fn from_u8(value: u8) -> (r: Option<VotingMode>)
        ensures
            r == (if value == VOTING_MODE_CLASSIC {
                Some(VotingMode::Classic)
            } else if value == VOTING_MODE_REVERSE {
                Some(VotingMode::Reverse)
            } else if value == VOTING_MODE_MIDDLE_WAY {
                Some(VotingMode::MiddleWay)
            } else {
                None
            }),
    {
        if value == VOTING_MODE_CLASSIC {
            Some(VotingMode::Classic)
        } else if value == VOTING_MODE_REVERSE {
            Some(VotingMode::Reverse)
        } else if value == VOTING_MODE_MIDDLE_WAY {
            Some(VotingMode::MiddleWay)
        } else {
            None
        }
    }
}

/// Largest of the four per-image weights.
pub open spec fn max_weight4(a: u64, b: u64, c: u64, d: u64) -> u64 {
    if a >= b && a >= c && a >= d {
        a
    } else if b >= c && b >= d {
        b
    } else if c >= d {
        c
    } else {
        d
    }
}

/// Smallest of the four per-image weights.
pub open spec fn min_weight4(a: u64, b: u64, c: u64, d: u64) -> u64 {
    if a <= b && a <= c && a <= d {
        a
    } else if b <= c && b <= d {
        b
    } else if c <= d {
        c
    } else {
        d
    }
}

/// The weight a winning image must carry under `mode`.
pub open spec fn extremal_weight(idea: Idea, mode: VotingMode) -> u64 {
    if mode == VotingMode::Reverse {
        min_weight4(idea.votes@[0], idea.votes@[1], idea.votes@[2], idea.votes@[3])
    } else {
        max_weight4(idea.votes@[0], idea.votes@[1], idea.votes@[2], idea.votes@[3])
    }
}

/// How many images carry weight `w`.
pub open spec fn weight_multiplicity(idea: Idea, w: u64) -> int {
    (if idea.votes@[0] == w { 1int } else { 0int })
    + (if idea.votes@[1] == w { 1int } else { 0int })
    + (if idea.votes@[2] == w { 1int } else { 0int })
    + (if idea.votes@[3] == w { 1int } else { 0int })
}

/// More than one image shares the extremal weight: the vote is tied.
pub open spec fn settlement_tie(idea: Idea, mode: VotingMode) -> bool {
    weight_multiplicity(idea, extremal_weight(idea, mode)) >= 2
}

/// The first (and, without a tie, only) image carrying the extremal weight.
pub open spec fn winning_index(idea: Idea, mode: VotingMode) -> int {
    let e = extremal_weight(idea, mode);
    if idea.votes@[0] == e {
        0
    } else if idea.votes@[1] == e {
        1
    } else if idea.votes@[2] == e {
        2
    } else {
        3
    }
}

/// Reject-all reached the two-thirds supermajority of all vote weight.
pub open spec fn reject_supermajority(idea: Idea) -> bool {
    let total = total_vote_weight(idea);
    total > 0 && idea.reject_all_weight * (BPS_DENOMINATOR as int) / total
        >= REJECT_ALL_THRESHOLD_BPS as int
}

/// Curator fee owed at settlement.
pub open spec fn settlement_curator_fee(idea: Idea) -> int {
    bps_share(idea.total_staked as int, idea.curator_fee_bps as int)
}

/// Platform fee owed at settlement.
pub open spec fn settlement_platform_fee(idea: Idea) -> int {
    bps_share(idea.total_staked as int, PLATFORM_FEE_BPS as int)
}

/// Pool left after the curator and platform fees.
pub open spec fn settlement_remaining(idea: Idea) -> int {
    idea.total_staked - settlement_curator_fee(idea) - settlement_platform_fee(idea)
}

/// Share of the remaining pool forwarded to the theme's buyback pool.
pub open spec fn settlement_buyback(idea: Idea) -> int {
    bps_share(settlement_remaining(idea), SETTLEMENT_BUYBACK_BPS as int)
}

/// Penalty pool distributed to winners, computed after the buyback share.
pub open spec fn settlement_penalty(idea: Idea) -> int {
    bps_share(settlement_remaining(idea) - settlement_buyback(idea), PENALTY_BPS as int)
}

/// Truncation dust: what remains in the vault besides winners' stakes,
/// the penalty pool, and the three outbound transfers.
pub open spec fn settlement_dust(idea: Idea) -> int {
    settlement_remaining(idea) - settlement_buyback(idea) - settlement_penalty(idea)
}

/// The curator and platform fees together exceed the stake pool; the
/// settlement then aborts with `Overflow` and changes nothing.
pub open spec fn settlement_fee_overflow(idea: Idea) -> bool {
    settlement_curator_fee(idea) + settlement_platform_fee(idea) > idea.total_staked
}

/// Why a settlement cancels instead of completing, if it does.
pub open spec fn settlement_cancel_reason(idea: Idea, mode: VotingMode) -> Option<
    SettlementOutcome,
> {
    if idea.total_voters < MIN_REVIEWERS {
        Some(SettlementOutcome::InsufficientParticipation)
    } else if reject_supermajority(idea) {
        Some(SettlementOutcome::RejectedBySupermajority)
    } else if settlement_tie(idea, mode) {
        Some(SettlementOutcome::Tied)
    } else {
        None
    }
}

/// First reason a settlement call fails, or `None` when it goes through.
pub open spec fn settlement_rejection(idea: Idea, mode: VotingMode, now: i64) -> Option<
    ConsensusError,
> {
    if idea.status != IdeaStatus::Voting {
        Some(ConsensusError::InvalidState)
    } else if now < idea.voting_deadline {
        Some(ConsensusError::VotingNotEnded)
    } else if settlement_cancel_reason(idea, mode) is None && settlement_fee_overflow(idea) {
        Some(ConsensusError::Overflow)
    } else {
        None
    }
}

/// The fee split frozen by a completed settlement.  The caller transfers
/// `curator_fee` to the initiator, `platform_fee` to the protocol treasury,
/// and `buyback_contribution` to the theme's buyback account, all out of
/// the idea's vault, in the same atomic transaction.
#[derive(Clone, Copy, Debug, PartialEq, Eq, Structural)]
pub struct SettlementFees {
    /// The unique image carrying the extremal weight.
    pub winning_image_index: u8,
    /// Owed from the vault to the idea's initiator.
    pub curator_fee: u64,
    /// Owed from the vault to the protocol treasury.
    pub platform_fee: u64,
    /// Owed from the vault to the theme's buyback accumulator.
    pub buyback_contribution: u64,
    /// Stays in the vault, shared among winners at withdrawal.
    pub penalty_pool: u64,
    /// Vote weight of the winning image: the penalty-pool divisor.
    pub winner_count: u64,
}

/// What a settlement did.
#[derive(Clone, Copy, Debug, PartialEq, Eq, Structural)]
pub enum SettlementOutcome {
    /// Fewer than `MIN_REVIEWERS` voters took part: cancelled, no fees.
    InsufficientParticipation,
    /// Reject-all reached the two-thirds supermajority: cancelled, no fees.
    RejectedBySupermajority,
    /// Several images share the extremal weight: cancelled, no fees.
    Tied,
    /// A unique winner was found and the fee split frozen.
    Completed(SettlementFees),
}

/// The fee values a completed settlement freezes for `idea`.
pub open spec fn completed_fees(idea: Idea, mode: VotingMode) -> SettlementFees {
    SettlementFees {
        winning_image_index: winning_index(idea, mode) as u8,
        curator_fee: settlement_curator_fee(idea) as u64,
        platform_fee: settlement_platform_fee(idea) as u64,
        buyback_contribution: settlement_buyback(idea) as u64,
        penalty_pool: settlement_penalty(idea) as u64,
        winner_count: idea.votes@[winning_index(idea, mode)],
    }
}

/// Settles the vote once the deadline has passed.
///
/// Cancels when participation is too thin, reject-all holds a two-thirds
/// supermajority, or the extremal weight is shared; otherwise records the
/// winner, the fee split, and the penalty pool, and completes the idea.
/// Any failure leaves the idea untouched.  The preconditions are machine
/// limits: the weight total is summed in 64 bits, and a curator fee above
/// the basis-point denominator could not be paid out.
pub fn settle_voting(idea: &mut Idea, voting_mode: VotingMode, now: i64) -> (r: Result<
    SettlementOutcome,
    ConsensusError,
>)
    requires
        total_vote_weight(*old(idea)) <= u64::MAX,
        old(idea).curator_fee_bps <= BPS_DENOMINATOR,
    ensures
        r is Ok <==> settlement_rejection(*old(idea), voting_mode, now) is None,
        r is Err ==> *final(idea) == *old(idea)
            && Some(r->Err_0) == settlement_rejection(*old(idea), voting_mode, now),
        r is Ok && settlement_cancel_reason(*old(idea), voting_mode) is Some ==> {
            &&& r->Ok_0 == settlement_cancel_reason(*old(idea), voting_mode)->Some_0
            &&& *final(idea) == (Idea { status: IdeaStatus::Cancelled, ..*old(idea) })
        },
        r is Ok && settlement_cancel_reason(*old(idea), voting_mode) is None ==> {
            &&& r->Ok_0 == SettlementOutcome::Completed(completed_fees(*old(idea), voting_mode))
            &&& *final(idea) == (Idea {
                winning_image_index: Some(winning_index(*old(idea), voting_mode) as u8),
                curator_fee_collected: settlement_curator_fee(*old(idea)) as u64,
                platform_fee_collected: settlement_platform_fee(*old(idea)) as u64,
                penalty_pool_amount: settlement_penalty(*old(idea)) as u64,
                winner_count: old(idea).votes@[winning_index(*old(idea), voting_mode)],
                status: IdeaStatus::Completed,
                ..*old(idea)
            })
        },
{
    if idea.status != IdeaStatus::Voting {
        return Err(ConsensusError::InvalidState);
    }
    if now < idea.voting_deadline {
        return Err(ConsensusError::VotingNotEnded);
    }
    if idea.total_voters < MIN_REVIEWERS {
        idea.status = IdeaStatus::Cancelled;
        return Ok(SettlementOutcome::InsufficientParticipation);
    }
    let v0 = idea.votes[0];
    let v1 = idea.votes[1];
    let v2 = idea.votes[2];
    let v3 = idea.votes[3];
    let total_weight: u64 = v0 + v1 + v2 + v3 + idea.reject_all_weight;
    if total_weight > 0 {
        let reject_ratio: u128 = (idea.reject_all_weight as u128) * (BPS_DENOMINATOR as u128)
            / (total_weight as u128);
        proof {
            lemma_mul_div_le(
                BPS_DENOMINATOR as int,
                idea.reject_all_weight as int,
                total_weight as int,
            );
            assert(idea.reject_all_weight as int * (BPS_DENOMINATOR as int)
                == (BPS_DENOMINATOR as int) * (idea.reject_all_weight as int)) by (nonlinear_arith);
        }
        if reject_ratio >= REJECT_ALL_THRESHOLD_BPS as u128 {
            idea.status = IdeaStatus::Cancelled;
            return Ok(SettlementOutcome::RejectedBySupermajority);
        }
    }
    let extremal: u64 = match voting_mode {
        VotingMode::Reverse => {
            let mut m = v0;
            if v1 < m {
                m = v1;
            }
            if v2 < m {
                m = v2;
            }
            if v3 < m {
                m = v3;
            }
            m
        },
        _ => {
            let mut m = v0;
            if v1 > m {
                m = v1;
            }
            if v2 > m {
                m = v2;
            }
            if v3 > m {
                m = v3;
            }
            m
        },
    };
    proof {
        assert(extremal == extremal_weight(*idea, voting_mode));
    }
    let mut matching: u32 = 0;
    if v0 == extremal {
        matching = matching + 1;
    }
    if v1 == extremal {
        matching = matching + 1;
    }
    if v2 == extremal {
        matching = matching + 1;
    }
    if v3 == extremal {
        matching = matching + 1;
    }
    if matching > 1 {
        idea.status = IdeaStatus::Cancelled;
        return Ok(SettlementOutcome::Tied);
    }
    let winner: u8 = if v0 == extremal {
        0
    } else if v1 == extremal {
        1
    } else if v2 == extremal {
        2
    } else {
        3
    };
    let total_staked = idea.total_staked;
    proof {
        lemma_bps_share_bounds(total_staked as int, idea.curator_fee_bps as int);
        lemma_bps_share_bounds(total_staked as int, PLATFORM_FEE_BPS as int);
    }
    let curator_fee: u64 = ((total_staked as u128) * (idea.curator_fee_bps as u128)
        / (BPS_DENOMINATOR as u128)) as u64;
    let platform_fee: u64 = ((total_staked as u128) * (PLATFORM_FEE_BPS as u128)
        / (BPS_DENOMINATOR as u128)) as u64;
    if curator_fee as u128 + platform_fee as u128 > total_staked as u128 {
        return Err(ConsensusError::Overflow);
    }
    let remaining_pool: u64 = total_staked - curator_fee - platform_fee;
    proof {
        lemma_bps_share_bounds(remaining_pool as int, SETTLEMENT_BUYBACK_BPS as int);
    }
    let buyback_contribution: u64 = ((remaining_pool as u128) * (SETTLEMENT_BUYBACK_BPS as u128)
        / (BPS_DENOMINATOR as u128)) as u64;
    let after_buyback: u64 = remaining_pool - buyback_contribution;
    proof {
        lemma_bps_share_bounds(after_buyback as int, PENALTY_BPS as int);
    }
    let penalty_pool: u64 = ((after_buyback as u128) * (PENALTY_BPS as u128)
        / (BPS_DENOMINATOR as u128)) as u64;
    let winner_count: u64 = if winner == 0 {
        v0
    } else if winner == 1 {
        v1
    } else if winner == 2 {
        v2
    } else {
        v3
    };
    idea.winning_image_index = Some(winner);
    idea.curator_fee_collected = curator_fee;
    idea.platform_fee_collected = platform_fee;
    idea.penalty_pool_amount = penalty_pool;
    idea.winner_count = winner_count;
    idea.status = IdeaStatus::Completed;
    Ok(
        SettlementOutcome::Completed(
            SettlementFees {
                winning_image_index: winner,
                curator_fee,
                platform_fee,
                buyback_contribution,
                penalty_pool,
                winner_count,
            },
        ),
    )
}

/// Settlement neither creates nor destroys value: the curator fee, the
/// platform fee, the buyback contribution, the penalty pool, and the
/// truncation dust retained in the vault reassemble the staked total
/// exactly, and every component is non-negative.
pub proof fn lemma_settlement_conservation(idea: Idea)
    requires
        idea.curator_fee_bps <= BPS_DENOMINATOR,
        !settlement_fee_overflow(idea),
    ensures
        settlement_curator_fee(idea) + settlement_platform_fee(idea) + settlement_remaining(idea)
            == idea.total_staked,
        settlement_buyback(idea) + settlement_penalty(idea) + settlement_dust(idea)
            == settlement_remaining(idea),
        settlement_curator_fee(idea) >= 0,
        settlement_platform_fee(idea) >= 0,
        settlement_remaining(idea) >= 0,
        settlement_buyback(idea) >= 0,
        settlement_penalty(idea) >= 0,
        settlement_dust(idea) >= 0,
{
    lemma_bps_share_bounds(idea.total_staked as int, idea.curator_fee_bps as int);
    lemma_bps_share_bounds(idea.total_staked as int, PLATFORM_FEE_BPS as int);
    lemma_bps_share_bounds(settlement_remaining(idea), SETTLEMENT_BUYBACK_BPS as int);
    lemma_bps_share_bounds(
        settlement_remaining(idea) - settlement_buyback(idea),
        PENALTY_BPS as int,
    );
}

/// First reason a winnings withdrawal is refused, or `None` when it pays.
pub open spec fn winnings_rejection(idea: Idea, vote: Vote, stake: ReviewerStake) -> Option<
    ConsensusError,
> {
    if idea.status != IdeaStatus::Completed {
        Some(ConsensusError::InvalidState)
    } else if stake.is_winner {
        Some(ConsensusError::AlreadyWithdrawn)
    } else if idea.winning_image_index is None {
        Some(ConsensusError::NoWinner)
    } else if vote.image_choice != idea.winning_image_index->0 {
        Some(ConsensusError::NotWinner)
    } else if idea.winner_count == 0 {
        Some(ConsensusError::DivisionByZero)
    } else if stake.total_staked + idea.penalty_pool_amount as int / idea.winner_count as int
        > u64::MAX {
        Some(ConsensusError::Overflow)
    } else {
        None
    }
}

/// The one-time payout of a winning stake: the stake itself plus an equal
/// share of the penalty pool (the division remainder stays in the vault).
pub open spec fn winnings_amount(idea: Idea, stake: ReviewerStake) -> int {
    stake.total_staked + idea.penalty_pool_amount as int / idea.winner_count as int
}

/// Pays out a winner once: returns the amount the caller transfers from
/// the idea's vault to the winner, and marks the stake record processed.
pub fn withdraw_winnings(idea: &Idea, vote: &Vote, reviewer_stake: &mut ReviewerStake) -> (r:
    Result<u64, ConsensusError>)
    ensures
        r is Ok <==> winnings_rejection(*idea, *vote, *old(reviewer_stake)) is None,
        r is Err ==> *final(reviewer_stake) == *old(reviewer_stake)
            && Some(r->Err_0) == winnings_rejection(*idea, *vote, *old(reviewer_stake)),
        r is Ok ==> r->Ok_0 == winnings_amount(*idea, *old(reviewer_stake))
            && *final(reviewer_stake) == (ReviewerStake {
            is_winner: true,
            winnings: winnings_amount(*idea, *old(reviewer_stake)) as u64,
            ..*old(reviewer_stake)
        }),
{
    if idea.status != IdeaStatus::Completed {
        return Err(ConsensusError::InvalidState);
    }
    if reviewer_stake.is_winner {
        return Err(ConsensusError::AlreadyWithdrawn);
    }
    let winning_index = match idea.winning_image_index {
        Some(w) => w,
        None => {
            return Err(ConsensusError::NoWinner);
        },
    };
    if vote.image_choice != winning_index {
        return Err(ConsensusError::NotWinner);
    }
    if idea.winner_count == 0 {
        return Err(ConsensusError::DivisionByZero);
    }
    let per_winner_share: u64 = idea.penalty_pool_amount / idea.winner_count;
    let total_winnings = match reviewer_stake.total_staked.checked_add(per_winner_share) {
        Some(v) => v,
        None => {
            return Err(ConsensusError::Overflow);
        },
    };
    reviewer_stake.is_winner = true;
    reviewer_stake.winnings = total_winnings;
    Ok(total_winnings)
}

/// First reason a refund is refused, or `None` when it pays.
pub open spec fn refund_rejection(idea: Idea, stake: ReviewerStake) -> Option<ConsensusError> {
    if idea.status != IdeaStatus::Cancelled {
        Some(ConsensusError::InvalidState)
    } else if stake.is_winner {
        Some(ConsensusError::AlreadyWithdrawn)
    } else {
        None
    }
}

/// Refunds a stake of a cancelled idea in full, once: returns the amount
/// the caller transfers back to the voter and marks the record processed.
pub fn withdraw_refund(idea: &Idea, reviewer_stake: &mut ReviewerStake) -> (r: Result<
    u64,
    ConsensusError,
>)
    ensures
        r is Ok <==> refund_rejection(*idea, *old(reviewer_stake)) is None,
        r is Err ==> *final(reviewer_stake) == *old(reviewer_stake)
            && Some(r->Err_0) == refund_rejection(*idea, *old(reviewer_stake)),
        r is Ok ==> r->Ok_0 == old(reviewer_stake).total_staked
            && *final(reviewer_stake) == (ReviewerStake {
            is_winner: true,
            ..*old(reviewer_stake)
        }),
{
    if idea.status != IdeaStatus::Cancelled {
        return Err(ConsensusError::InvalidState);
    }
    if reviewer_stake.is_winner {
        return Err(ConsensusError::AlreadyWithdrawn);
    }
    let refund_amount = reviewer_stake.total_staked;
    reviewer_stake.is_winner = true;
    Ok(refund_amount)
}

/// Withdrawals are one-shot.  A successful `withdraw_winnings` marks the
/// stake record processed, and any further withdrawal against the same
/// record — winnings or refund — fails with `AlreadyWithdrawn` and leaves
/// the record, and hence custody, untouched.
pub proof fn lemma_withdraw_once(idea: Idea, vote: Vote, stake: ReviewerStake, paid: ReviewerStake)
    requires
        winnings_rejection(idea, vote, stake) is None,
        paid == (ReviewerStake {
            is_winner: true,
            winnings: winnings_amount(idea, stake) as u64,
            ..stake
        }),
    ensures
        winnings_rejection(idea, vote, paid) == Some(ConsensusError::AlreadyWithdrawn),
        refund_rejection(idea, paid) is Some,
{
}

} // verus!
