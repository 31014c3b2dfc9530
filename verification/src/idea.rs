//! Idea lifecycle: creation, oracle image confirmation, quadratic voting,
//! and cancellation.
//!
//! Identities (accounts, mints, oracles) are modelled as plain `u64` keys
//! handed in by the hosting layer; the clock is an injected timestamp.
//! Custody movements (the flat creation fee, the stake transfer into the
//! idea's vault) are performed by the caller in the same atomic transaction;
//! their amounts are fixed by the contracts here.

use vstd::prelude::*;

use crate::config::{
    CURATOR_FEE_BPS, DEFAULT_VOTING_DURATION, IMAGE_GENERATION_TIMEOUT, MAX_IMAGE_URI_LEN,
    MAX_PROMPT_LEN, MIN_TOKEN_STAKE,
};
use crate::errors::ConsensusError;
use crate::math::{integer_sqrt, isqrt};

verus! {

/// Lifecycle state of an idea.
#[derive(Clone, Copy, Debug, PartialEq, Eq, Structural)]
pub enum IdeaStatus {
    /// The oracle is still generating candidate images.
    GeneratingImages,
    /// Participants are voting.
    Voting,
    /// Voting settled with a winner.
    Completed,
    /// Cancelled: too few voters, supermajority reject, tie, or timeout.
    Cancelled,
}

/// State of the oracle's image generation.
#[derive(Clone, Copy, Debug, PartialEq, Eq, Structural)]
pub enum GenerationStatus {
    /// Images have not been delivered yet.
    Pending,
    /// Images were delivered and accepted.
    Completed,
    /// Generation failed.
    Failed,
}

/// One proposed creative competition and all its accounting.
pub struct Idea {
    /// Identity of the account that created the idea.
    pub initiator: u64,
    /// Caller-chosen numeric id; part of the idea's storage key.
    pub idea_id: u64,
    /// Prompt handed to the image oracle, 1..=512 bytes.
    pub prompt: Vec<u8>,
    /// Timestamp of creation.
    pub created_at: i64,
    /// Key of the theme whose token is staked here.
    pub theme: u64,
    /// Mint key of that theme's token.
    pub theme_token_mint: u64,
    /// Candidate image URIs; empty until the oracle confirms, then exactly 4.
    pub image_uris: Vec<Vec<u8>>,
    /// State of the oracle's image generation.
    pub generation_status: GenerationStatus,
    /// Deadline for the oracle to deliver images.
    pub generation_deadline: i64,
    /// Identity of the oracle provider chosen for this idea.
    pub depin_provider: u64,
    /// Sponsor identity, when the idea was created with a funded prize pool.
    pub sponsor: Option<u64>,
    /// Prize pool the sponsor moved into the vault at creation.
    pub initial_prize_pool: u64,
    /// Total tokens staked into the idea's vault.
    pub total_staked: u64,
    /// Smallest stake a vote may carry.
    pub min_stake: u64,
    /// Curator fee charged at settlement, in basis points.
    pub curator_fee_bps: u16,
    /// Accumulated quadratic vote weight per candidate image.
    pub votes: [u64; 4],
    /// Accumulated quadratic vote weight of the reject-all option.
    pub reject_all_weight: u64,
    /// Number of votes cast (one per voter).
    pub total_voters: u64,
    /// Winning image, recorded by settlement.
    pub winning_image_index: Option<u8>,
    /// Curator fee computed at settlement.
    pub curator_fee_collected: u64,
    /// Platform fee computed at settlement.
    pub platform_fee_collected: u64,
    /// Penalty pool computed at settlement, shared among winners.
    pub penalty_pool_amount: u64,
    /// Vote weight of the winning image, the divisor of the penalty pool.
    pub winner_count: u64,
    /// End of the voting window.
    pub voting_deadline: i64,
    /// Lifecycle state.
    pub status: IdeaStatus,
}

/// Custody sub-account holding the stakes of exactly one idea.
pub struct Vault {
    /// Key of the idea this vault belongs to.
    pub idea: u64,
}

/// One participant's vote: created at the first (and only) stake.
#[derive(Clone, Copy, Debug, PartialEq, Eq, Structural)]
pub struct Vote {
    /// Key of the idea voted on.
    pub idea: u64,
    /// Identity of the voter.
    pub voter: u64,
    /// Chosen image 0..=3, or 255 for reject-all.
    pub image_choice: u8,
    /// Tokens staked with this vote.
    pub stake_amount: u64,
    /// Quadratic voting weight: the integer square root of the stake.
    pub vote_weight: u64,
    /// Timestamp the vote was cast.
    pub ts: i64,
}

/// Per-(idea, voter) custody record, settled at most once.
#[derive(Clone, Copy, Debug, PartialEq, Eq, Structural)]
pub struct ReviewerStake {
    /// Key of the idea staked on.
    pub idea: u64,
    /// Identity of the voter who staked.
    pub reviewer: u64,
    /// Tokens this voter staked.
    pub total_staked: u64,
    /// Set once winnings or a refund have been paid out.
    pub is_winner: bool,
    /// Amount paid out as winnings.
    pub winnings: u64,
}

/// Sum of all vote-weight accumulators, reject-all included.
pub open spec fn total_vote_weight(idea: Idea) -> int {
    idea.votes@[0] + idea.votes@[1] + idea.votes@[2] + idea.votes@[3] + idea.reject_all_weight
}

/// Fields every freshly created idea shares, regardless of sponsorship.
pub open spec fn is_new_idea(
    idea: Idea,
    initiator: u64,
    idea_id: u64,
    prompt: Seq<u8>,
    theme: u64,
    theme_token_mint: u64,
    depin_provider: u64,
    now: i64,
) -> bool {
    &&& idea.initiator == initiator
    &&& idea.idea_id == idea_id
    &&& idea.prompt@ == prompt
    &&& idea.created_at == now
    &&& idea.theme == theme
    &&& idea.theme_token_mint == theme_token_mint
    &&& idea.image_uris@.len() == 0
    &&& idea.generation_status == GenerationStatus::Pending
    &&& idea.generation_deadline == now + IMAGE_GENERATION_TIMEOUT
    &&& idea.depin_provider == depin_provider
    &&& idea.min_stake == MIN_TOKEN_STAKE
    &&& idea.curator_fee_bps == CURATOR_FEE_BPS
    &&& idea.votes@ =~= seq![0u64, 0u64, 0u64, 0u64]
    &&& idea.reject_all_weight == 0
    &&& idea.total_voters == 0
    &&& idea.winning_image_index is None
    &&& idea.curator_fee_collected == 0
    &&& idea.platform_fee_collected == 0
    &&& idea.penalty_pool_amount == 0
    &&& idea.winner_count == 0
    &&& idea.voting_deadline == 0
    &&& idea.status == IdeaStatus::GeneratingImages
}

/// Creates an idea.  The caller charges the flat `CREATION_FEE` from the
/// initiator to the protocol treasury in the same transaction.
pub fn create_idea(
    initiator: u64,
    idea_id: u64,
    prompt: Vec<u8>,
    theme: u64,
    theme_token_mint: u64,
    depin_provider: u64,
    voting_duration_hours: u16,
    now: i64,
) -> (r: Result<Idea, ConsensusError>)
    requires
        now + IMAGE_GENERATION_TIMEOUT <= i64::MAX,
    ensures
        r is Ok <==> (1 <= prompt@.len() <= MAX_PROMPT_LEN && 24 <= voting_duration_hours <= 168),
        r is Err ==> r->Err_0 == (if prompt@.len() < 1 || prompt@.len() > MAX_PROMPT_LEN {
            ConsensusError::InvalidPrompt
        } else {
            ConsensusError::InvalidVotingDuration
        }),
        r is Ok ==> is_new_idea(
            r->Ok_0, initiator, idea_id, prompt@, theme, theme_token_mint, depin_provider, now),
        r is Ok ==> r->Ok_0.sponsor is None && r->Ok_0.initial_prize_pool == 0
            && r->Ok_0.total_staked == 0,
{
    if prompt.len() < 1 || prompt.len() > MAX_PROMPT_LEN {
        return Err(ConsensusError::InvalidPrompt);
    }
    if voting_duration_hours < 24 || voting_duration_hours > 168 {
        return Err(ConsensusError::InvalidVotingDuration);
    }
    let idea = Idea {
        initiator,
        idea_id,
        prompt,
        created_at: now,
        theme,
        theme_token_mint,
        image_uris: Vec::new(),
        generation_status: GenerationStatus::Pending,
        generation_deadline: now + IMAGE_GENERATION_TIMEOUT,
        depin_provider,
        sponsor: None,
        initial_prize_pool: 0,
        total_staked: 0,
        min_stake: MIN_TOKEN_STAKE,
        curator_fee_bps: CURATOR_FEE_BPS,
        votes: [0, 0, 0, 0],
        reject_all_weight: 0,
        total_voters: 0,
        winning_image_index: None,
        curator_fee_collected: 0,
        platform_fee_collected: 0,
        penalty_pool_amount: 0,
        winner_count: 0,
        voting_deadline: 0,
        status: IdeaStatus::GeneratingImages,
    };
    Ok(idea)
}

/// Creates a sponsored idea.  Besides the flat creation fee, the caller
/// moves `initial_prize_pool` from the sponsor's custody into the idea's
/// vault in the same transaction; the pool is recorded as already staked.
pub fn create_sponsored_idea(
    initiator: u64,
    idea_id: u64,
    prompt: Vec<u8>,
    theme: u64,
    theme_token_mint: u64,
    depin_provider: u64,
    voting_duration_hours: u16,
    sponsor: u64,
    initial_prize_pool: u64,
    now: i64,
) -> (r: Result<Idea, ConsensusError>)
    requires
        now + IMAGE_GENERATION_TIMEOUT <= i64::MAX,
    ensures
        r is Ok <==> (1 <= prompt@.len() <= MAX_PROMPT_LEN && 24 <= voting_duration_hours <= 168
            && initial_prize_pool >= MIN_TOKEN_STAKE),
        r is Err ==> r->Err_0 == (if prompt@.len() < 1 || prompt@.len() > MAX_PROMPT_LEN {
            ConsensusError::InvalidPrompt
        } else if voting_duration_hours < 24 || voting_duration_hours > 168 {
            ConsensusError::InvalidVotingDuration
        } else {
            ConsensusError::StakeTooLow
        }),
        r is Ok ==> is_new_idea(
            r->Ok_0, initiator, idea_id, prompt@, theme, theme_token_mint, depin_provider, now),
        r is Ok ==> r->Ok_0.sponsor == Some(sponsor)
            && r->Ok_0.initial_prize_pool == initial_prize_pool
            && r->Ok_0.total_staked == initial_prize_pool,
{
    if prompt.len() < 1 || prompt.len() > MAX_PROMPT_LEN {
        return Err(ConsensusError::InvalidPrompt);
    }
    if voting_duration_hours < 24 || voting_duration_hours > 168 {
        return Err(ConsensusError::InvalidVotingDuration);
    }
    if initial_prize_pool < MIN_TOKEN_STAKE {
        return Err(ConsensusError::StakeTooLow);
    }
    let idea = Idea {
        initiator,
        idea_id,
        prompt,
        created_at: now,
        theme,
        theme_token_mint,
        image_uris: Vec::new(),
        generation_status: GenerationStatus::Pending,
        generation_deadline: now + IMAGE_GENERATION_TIMEOUT,
        depin_provider,
        sponsor: Some(sponsor),
        initial_prize_pool,
        total_staked: initial_prize_pool,
        min_stake: MIN_TOKEN_STAKE,
        curator_fee_bps: CURATOR_FEE_BPS,
        votes: [0, 0, 0, 0],
        reject_all_weight: 0,
        total_voters: 0,
        winning_image_index: None,
        curator_fee_collected: 0,
        platform_fee_collected: 0,
        penalty_pool_amount: 0,
        winner_count: 0,
        voting_deadline: 0,
        status: IdeaStatus::GeneratingImages,
    };
    Ok(idea)
}

/// Every delivered image URI is 1..=`MAX_IMAGE_URI_LEN` bytes.
pub open spec fn uris_well_formed(uris: Seq<Vec<u8>>) -> bool {
    forall|i: int| 0 <= i < uris.len() ==> 1 <= (#[trigger] uris[i])@.len() <= MAX_IMAGE_URI_LEN
}

/// Records the oracle's four candidate images and opens the voting window.
/// Only the authorized oracle identity (injected configuration) may call.
pub fn confirm_images(
    idea: &mut Idea,
    oracle_authority: u64,
    authorized_oracle: u64,
    image_uris: Vec<Vec<u8>>,
    now: i64,
) -> (r: Result<(), ConsensusError>)
    requires
        now + DEFAULT_VOTING_DURATION <= i64::MAX,
    ensures
        r is Ok <==> (old(idea).status == IdeaStatus::GeneratingImages
            && image_uris@.len() == 4
            && oracle_authority == authorized_oracle
            && uris_well_formed(image_uris@)),
        r is Err ==> *final(idea) == *old(idea) && r->Err_0 == (
            if old(idea).status != IdeaStatus::GeneratingImages {
                ConsensusError::InvalidState
            } else if image_uris@.len() != 4 {
                ConsensusError::InvalidImageCount
            } else if oracle_authority != authorized_oracle {
                ConsensusError::UnauthorizedDePIN
            } else {
                ConsensusError::InvalidImageUri
            }),
        r is Ok ==> *final(idea) == (Idea {
            image_uris,
            generation_status: GenerationStatus::Completed,
            status: IdeaStatus::Voting,
            voting_deadline: (now + DEFAULT_VOTING_DURATION) as i64,
            ..*old(idea)
        }),
{
    if idea.status != IdeaStatus::GeneratingImages {
        return Err(ConsensusError::InvalidState);
    }
    if image_uris.len() != 4 {
        return Err(ConsensusError::InvalidImageCount);
    }
    if oracle_authority != authorized_oracle {
        return Err(ConsensusError::UnauthorizedDePIN);
    }
    let mut i: usize = 0;
    while i < image_uris.len()
        invariant
            *idea == *old(idea),
            old(idea).status == IdeaStatus::GeneratingImages,
            image_uris@.len() == 4,
            oracle_authority == authorized_oracle,
            i <= image_uris@.len(),
            forall|j: int| 0 <= j < i ==> 1 <= (#[trigger] image_uris@[j])@.len() <= MAX_IMAGE_URI_LEN,
        decreases image_uris@.len() - i,
    {
        let len = image_uris[i].len();
        if len < 1 || len > MAX_IMAGE_URI_LEN {
            return Err(ConsensusError::InvalidImageUri);
        }
        i = i + 1;
    }
    idea.image_uris = image_uris;
    idea.generation_status = GenerationStatus::Completed;
    idea.status = IdeaStatus::Voting;
    idea.voting_deadline = now + DEFAULT_VOTING_DURATION;
    Ok(())
}

/// True when a vote would overflow one of the idea's accumulators; the
/// operation then fails with `Overflow` and changes nothing.
pub open spec fn vote_overflows(idea: Idea, image_index: u8, token_amount: u64) -> bool {
    let w = isqrt(token_amount as nat);
    ||| idea.total_staked + token_amount > u64::MAX
    ||| (image_index < 4 && idea.votes@[image_index as int] + w > u64::MAX)
    ||| (image_index == 255 && idea.reject_all_weight + w > u64::MAX)
}

/// First reason a vote is rejected, or `None` when it is accepted.
pub open spec fn vote_rejection(
    idea: Idea,
    image_index: u8,
    token_amount: u64,
    now: i64,
) -> Option<ConsensusError> {
    if idea.status != IdeaStatus::Voting {
        Some(ConsensusError::InvalidState)
    } else if !(image_index < 4 || image_index == 255) {
        Some(ConsensusError::InvalidImageIndex)
    } else if token_amount < idea.min_stake {
        Some(ConsensusError::StakeTooLow)
    } else if now >= idea.voting_deadline {
        Some(ConsensusError::VotingEnded)
    } else if vote_overflows(idea, image_index, token_amount) {
        Some(ConsensusError::Overflow)
    } else {
        None
    }
}

/// How an accepted vote transforms the idea: the chosen accumulator grows
/// by the quadratic weight, the stake and voter counters grow, and every
/// other field is untouched.
pub open spec fn vote_applied(pre: Idea, post: Idea, image_index: u8, token_amount: u64) -> bool {
    let w = isqrt(token_amount as nat);
    &&& if image_index < 4 {
        &&& post.votes@ =~= pre.votes@.update(
            image_index as int, (pre.votes@[image_index as int] + w) as u64)
        &&& post.reject_all_weight == pre.reject_all_weight
    } else {
        &&& post.votes@ =~= pre.votes@
        &&& post.reject_all_weight == pre.reject_all_weight + w
    }
    &&& post.total_staked == pre.total_staked + token_amount
    &&& post.total_voters == pre.total_voters + 1
    &&& post.initiator == pre.initiator
    &&& post.idea_id == pre.idea_id
    &&& post.prompt@ == pre.prompt@
    &&& post.created_at == pre.created_at
    &&& post.theme == pre.theme
    &&& post.theme_token_mint == pre.theme_token_mint
    &&& post.image_uris@ == pre.image_uris@
    &&& post.generation_status == pre.generation_status
    &&& post.generation_deadline == pre.generation_deadline
    &&& post.depin_provider == pre.depin_provider
    &&& post.sponsor == pre.sponsor
    &&& post.initial_prize_pool == pre.initial_prize_pool
    &&& post.min_stake == pre.min_stake
    &&& post.curator_fee_bps == pre.curator_fee_bps
    &&& post.winning_image_index == pre.winning_image_index
    &&& post.curator_fee_collected == pre.curator_fee_collected
    &&& post.platform_fee_collected == pre.platform_fee_collected
    &&& post.penalty_pool_amount == pre.penalty_pool_amount
    &&& post.winner_count == pre.winner_count
    &&& post.voting_deadline == pre.voting_deadline
    &&& post.status == pre.status
}

/// Stakes `token_amount` on image `image_index` (255 = reject-all) and
/// records the vote with quadratic weight `isqrt(token_amount)`.
///
/// The caller moves the stake from the voter's custody into the idea's
/// vault in the same transaction, and the keyed store must reject a second
/// (idea, voter) record rather than merge it: one stake per voter.
pub fn vote_for_image(
    idea: &mut Idea,
    voter: u64,
    image_index: u8,
    token_amount: u64,
    now: i64,
) -> (r: Result<(Vote, ReviewerStake), ConsensusError>)
    requires
        old(idea).total_voters < u64::MAX,
    ensures
        r is Ok <==> vote_rejection(*old(idea), image_index, token_amount, now) is None,
        r is Err ==> *final(idea) == *old(idea)
            && Some(r->Err_0) == vote_rejection(*old(idea), image_index, token_amount, now),
        r is Ok ==> vote_applied(*old(idea), *final(idea), image_index, token_amount),
        r is Ok ==> total_vote_weight(*final(idea))
            == total_vote_weight(*old(idea)) + isqrt(token_amount as nat),
        r is Ok ==> r->Ok_0.0 == (Vote {
            idea: old(idea).idea_id,
            voter,
            image_choice: image_index,
            stake_amount: token_amount,
            vote_weight: isqrt(token_amount as nat) as u64,
            ts: now,
        }),
        r is Ok ==> r->Ok_0.1 == (ReviewerStake {
            idea: old(idea).idea_id,
            reviewer: voter,
            total_staked: token_amount,
            is_winner: false,
            winnings: 0,
        }),
{
    if idea.status != IdeaStatus::Voting {
        return Err(ConsensusError::InvalidState);
    }
    if !(image_index < 4 || image_index == 255) {
        return Err(ConsensusError::InvalidImageIndex);
    }
    if token_amount < idea.min_stake {
        return Err(ConsensusError::StakeTooLow);
    }
    if now >= idea.voting_deadline {
        return Err(ConsensusError::VotingEnded);
    }
    let vote_weight = integer_sqrt(token_amount);
    let new_total_staked = match idea.total_staked.checked_add(token_amount) {
        Some(v) => v,
        None => {
            return Err(ConsensusError::Overflow);
        },
    };
    if image_index < 4 {
        let idx = image_index as usize;
        let new_weight = match idea.votes[idx].checked_add(vote_weight) {
            Some(v) => v,
            None => {
                return Err(ConsensusError::Overflow);
            },
        };
        idea.votes[idx] = new_weight;
    } else {
        let new_weight = match idea.reject_all_weight.checked_add(vote_weight) {
            Some(v) => v,
            None => {
                return Err(ConsensusError::Overflow);
            },
        };
        idea.reject_all_weight = new_weight;
    }
    idea.total_staked = new_total_staked;
    idea.total_voters = idea.total_voters + 1;
    let vote = Vote {
        idea: idea.idea_id,
        voter,
        image_choice: image_index,
        stake_amount: token_amount,
        vote_weight,
        ts: now,
    };
    let reviewer_stake = ReviewerStake {
        idea: idea.idea_id,
        reviewer: voter,
        total_staked: token_amount,
        is_winner: false,
        winnings: 0,
    };
    Ok((vote, reviewer_stake))
}

/// Cancels an idea: the initiator may cancel while it is generating or
/// voting; anyone may cancel once the generation deadline plus the default
/// voting window has passed.
pub fn cancel_idea(idea: &mut Idea, authority: u64, now: i64) -> (r: Result<(), ConsensusError>)
    requires
        old(idea).generation_deadline + DEFAULT_VOTING_DURATION <= i64::MAX,
    ensures
        r is Ok <==> ((authority == old(idea).initiator
            || now > old(idea).generation_deadline + DEFAULT_VOTING_DURATION)
            && (old(idea).status == IdeaStatus::GeneratingImages
                || old(idea).status == IdeaStatus::Voting)),
        r is Err ==> *final(idea) == *old(idea) && r->Err_0 == (
            if !(authority == old(idea).initiator
                || now > old(idea).generation_deadline + DEFAULT_VOTING_DURATION) {
                ConsensusError::Unauthorized
            } else {
                ConsensusError::InvalidState
            }),
        r is Ok ==> *final(idea) == (Idea { status: IdeaStatus::Cancelled, ..*old(idea) }),
{
    let can_cancel =
        authority == idea.initiator || now > idea.generation_deadline + DEFAULT_VOTING_DURATION;
    if !can_cancel {
        return Err(ConsensusError::Unauthorized);
    }
    if !(idea.status == IdeaStatus::GeneratingImages || idea.status == IdeaStatus::Voting) {
        return Err(ConsensusError::InvalidState);
    }
    idea.status = IdeaStatus::Cancelled;
    Ok(())
}

/// Sum of the quadratic weights of a sequence of recorded votes.
pub open spec fn sum_recorded_weights(vs: Seq<Vote>) -> int
    decreases vs.len(),
{
    if vs.len() == 0 {
        0
    } else {
        sum_recorded_weights(vs.drop_last()) + isqrt(vs.last().stake_amount as nat)
    }
}

/// The idea's accumulators tally exactly the recorded votes.
pub open spec fn tally_matches(idea: Idea, vs: Seq<Vote>) -> bool {
    total_vote_weight(idea) == sum_recorded_weights(vs)
}

/// A freshly created idea tallies the empty vote record.
pub proof fn lemma_fresh_idea_tally(
    idea: Idea,
    initiator: u64,
    idea_id: u64,
    prompt: Seq<u8>,
    theme: u64,
    theme_token_mint: u64,
    depin_provider: u64,
    now: i64,
)
    requires
        is_new_idea(idea, initiator, idea_id, prompt, theme, theme_token_mint, depin_provider, now),
    ensures
        tally_matches(idea, Seq::<Vote>::empty()),
        total_vote_weight(idea) == 0,
{
    assert(sum_recorded_weights(Seq::<Vote>::empty()) == 0);
}

/// The total vote weight tallies the recorded votes and never decreases:
/// each accepted vote raises it by exactly `isqrt(stake)` — the quadratic
/// weight of the stake it records — so across any run of votes the sum of
/// the accumulators equals the sum of `isqrt(stake)` over all recorded
/// votes and is monotonically non-decreasing.
pub proof fn lemma_vote_tally_preserved(
    pre: Idea,
    post: Idea,
    vs: Seq<Vote>,
    vote: Vote,
    image_index: u8,
    token_amount: u64,
)
    requires
        tally_matches(pre, vs),
        vote_applied(pre, post, image_index, token_amount),
        !vote_overflows(pre, image_index, token_amount),
        image_index < 4 || image_index == 255,
        vote.stake_amount == token_amount,
    ensures
        tally_matches(post, vs.push(vote)),
        total_vote_weight(post) >= total_vote_weight(pre),
{
    let w = isqrt(token_amount as nat);
    assert(vs.push(vote).drop_last() =~= vs);
    assert(vs.push(vote).last() == vote);
    assert(sum_recorded_weights(vs.push(vote)) == sum_recorded_weights(vs) + w);
    if image_index < 4 {
        let i = image_index as int;
        assert(post.votes@[i] == pre.votes@[i] + w);
        assert(forall|j: int| 0 <= j < 4 && j != i ==> post.votes@[j] == pre.votes@[j]);
    }
    assert(total_vote_weight(post) == total_vote_weight(pre) + w);
}

} // verus!
