use taste_fun::errors::ConsensusError;
use taste_fun::idea::{Idea, IdeaStatus, GenerationStatus, ReviewerStake, Vote};
use taste_fun::settlement::{
    settle_voting, withdraw_refund, withdraw_winnings, SettlementOutcome, VotingMode,
};

fn voting_idea(votes: [u64; 4], reject: u64, voters: u64, staked: u64) -> Idea {
    Idea {
        initiator: 1,
        idea_id: 42,
        prompt: b"p".to_vec(),
        created_at: 0,
        theme: 9,
        theme_token_mint: 5,
        image_uris: vec![b"a".to_vec(), b"b".to_vec(), b"c".to_vec(), b"d".to_vec()],
        generation_status: GenerationStatus::Completed,
        generation_deadline: 100,
        depin_provider: 6,
        sponsor: None,
        initial_prize_pool: 0,
        total_staked: staked,
        min_stake: 1_000_000,
        curator_fee_bps: 100,
        votes,
        reject_all_weight: reject,
        total_voters: voters,
        winning_image_index: None,
        curator_fee_collected: 0,
        platform_fee_collected: 0,
        penalty_pool_amount: 0,
        winner_count: 0,
        voting_deadline: 1_000,
        status: IdeaStatus::Voting,
    }
}

#[test]
fn settle_rejects_wrong_state() {
    let mut idea = voting_idea([1, 2, 3, 4], 0, 10, 100_000_000);
    idea.status = IdeaStatus::Cancelled;
    let r = settle_voting(&mut idea, VotingMode::Classic, 2_000);
    assert_eq!(r.err(), Some(ConsensusError::InvalidState));
}

#[test]
fn settle_rejects_before_deadline() {
    let mut idea = voting_idea([1, 2, 3, 4], 0, 10, 100_000_000);
    let r = settle_voting(&mut idea, VotingMode::Classic, 999);
    assert_eq!(r.err(), Some(ConsensusError::VotingNotEnded));
    assert_eq!(idea.status, IdeaStatus::Voting);
}

#[test]
fn settle_cancels_thin_participation_without_touching_fees() {
    let mut idea = voting_idea([40, 30, 20, 10], 0, 9, 100_000_000);
    let r = settle_voting(&mut idea, VotingMode::Classic, 2_000);
    assert_eq!(r, Ok(SettlementOutcome::InsufficientParticipation));
    assert_eq!(idea.status, IdeaStatus::Cancelled);
    assert_eq!(idea.curator_fee_collected, 0);
    assert_eq!(idea.platform_fee_collected, 0);
    assert_eq!(idea.penalty_pool_amount, 0);
    assert_eq!(idea.winner_count, 0);
    assert_eq!(idea.winning_image_index, None);
}

#[test]
fn settle_cancels_on_reject_supermajority() {
    // reject = 6667, others sum to 3333: exactly the two-thirds threshold.
    let mut idea = voting_idea([3_333, 0, 0, 0], 6_667, 10, 100_000_000);
    let r = settle_voting(&mut idea, VotingMode::Classic, 2_000);
    assert_eq!(r, Ok(SettlementOutcome::RejectedBySupermajority));
    assert_eq!(idea.status, IdeaStatus::Cancelled);
    assert_eq!(idea.curator_fee_collected, 0);
}

#[test]
fn settle_below_reject_threshold_completes() {
    // reject = 6666 of 10000 falls short of the threshold.
    let mut idea = voting_idea([3_334, 0, 0, 0], 6_666, 10, 100_000_000);
    let r = settle_voting(&mut idea, VotingMode::Classic, 2_000);
    assert!(matches!(r, Ok(SettlementOutcome::Completed(_))));
}

#[test]
fn settle_cancels_classic_tie() {
    let mut idea = voting_idea([5, 5, 3, 2], 0, 10, 100_000_000);
    let r = settle_voting(&mut idea, VotingMode::Classic, 2_000);
    assert_eq!(r, Ok(SettlementOutcome::Tied));
    assert_eq!(idea.status, IdeaStatus::Cancelled);
    assert_eq!(idea.winning_image_index, None);
}

#[test]
fn settle_cancels_reverse_tie() {
    let mut idea = voting_idea([5, 2, 3, 2], 0, 10, 100_000_000);
    let r = settle_voting(&mut idea, VotingMode::Reverse, 2_000);
    assert_eq!(r, Ok(SettlementOutcome::Tied));
}

#[test]
fn settle_classic_picks_heaviest_image_and_splits_fees() {
    let mut idea = voting_idea([36, 25, 16, 9], 0, 10, 100_000_000);
    let r = settle_voting(&mut idea, VotingMode::Classic, 2_000).unwrap();
    match r {
        SettlementOutcome::Completed(fees) => {
            assert_eq!(fees.winning_image_index, 0);
            assert_eq!(fees.curator_fee, 1_000_000);
            assert_eq!(fees.platform_fee, 2_000_000);
            assert_eq!(fees.buyback_contribution, 4_850_000);
            assert_eq!(fees.penalty_pool, 46_075_000);
            assert_eq!(fees.winner_count, 36);
        }
        other => panic!("unexpected outcome {:?}", other),
    }
    assert_eq!(idea.status, IdeaStatus::Completed);
    assert_eq!(idea.winning_image_index, Some(0));
    assert_eq!(idea.curator_fee_collected, 1_000_000);
    assert_eq!(idea.platform_fee_collected, 2_000_000);
    assert_eq!(idea.penalty_pool_amount, 46_075_000);
    assert_eq!(idea.winner_count, 36);
}

#[test]
fn settle_reverse_picks_lightest_image() {
    let mut idea = voting_idea([36, 25, 16, 9], 0, 10, 100_000_000);
    let r = settle_voting(&mut idea, VotingMode::Reverse, 2_000).unwrap();
    match r {
        SettlementOutcome::Completed(fees) => {
            assert_eq!(fees.winning_image_index, 3);
            assert_eq!(fees.winner_count, 9);
        }
        other => panic!("unexpected outcome {:?}", other),
    }
}

#[test]
fn settle_middle_way_resolves_like_classic() {
    let mut idea = voting_idea([36, 25, 16, 9], 0, 10, 100_000_000);
    let r = settle_voting(&mut idea, VotingMode::MiddleWay, 2_000).unwrap();
    match r {
        SettlementOutcome::Completed(fees) => {
            assert_eq!(fees.winning_image_index, 0);
        }
        other => panic!("unexpected outcome {:?}", other),
    }
}

#[test]
fn settlement_fee_components_reconstruct_total() {
    // No value is created or destroyed: curator + platform + buyback +
    // penalty + retained dust add back up to the staked total.
    let total_staked: u64 = 100_000_000;
    let mut idea = voting_idea([36, 25, 16, 9], 0, 10, total_staked);
    let r = settle_voting(&mut idea, VotingMode::Classic, 2_000).unwrap();
    match r {
        SettlementOutcome::Completed(fees) => {
            let remaining = total_staked - fees.curator_fee - fees.platform_fee;
            let dust = remaining - fees.buyback_contribution - fees.penalty_pool;
            assert_eq!(
                fees.curator_fee
                    + fees.platform_fee
                    + fees.buyback_contribution
                    + fees.penalty_pool
                    + dust,
                total_staked
            );
            assert_eq!(dust, 46_075_000);
        }
        other => panic!("unexpected outcome {:?}", other),
    }
}

#[test]
fn settle_overflowing_fee_split_aborts_without_mutation() {
    // A curator fee of 99% plus the 2% platform fee exceeds the pool.
    let mut idea = voting_idea([36, 25, 16, 9], 0, 10, 100_000_000);
    idea.curator_fee_bps = 9_900;
    let r = settle_voting(&mut idea, VotingMode::Classic, 2_000);
    assert_eq!(r.err(), Some(ConsensusError::Overflow));
    assert_eq!(idea.status, IdeaStatus::Voting);
    assert_eq!(idea.winning_image_index, None);
    assert_eq!(idea.curator_fee_collected, 0);
}

fn completed_idea() -> Idea {
    let mut idea = voting_idea([36, 25, 16, 9], 0, 10, 100_000_000);
    settle_voting(&mut idea, VotingMode::Classic, 2_000).unwrap();
    idea
}

fn vote_record(choice: u8) -> Vote {
    Vote {
        idea: 42,
        voter: 501,
        image_choice: choice,
        stake_amount: 10_000_000,
        vote_weight: 3_162,
        ts: 500,
    }
}

fn stake_record() -> ReviewerStake {
    ReviewerStake {
        idea: 42,
        reviewer: 501,
        total_staked: 10_000_000,
        is_winner: false,
        winnings: 0,
    }
}

#[test]
fn winnings_pay_stake_plus_penalty_share() {
    let idea = completed_idea();
    let vote = vote_record(0);
    let mut stake = stake_record();
    let amount = withdraw_winnings(&idea, &vote, &mut stake).unwrap();
    // 10_000_000 + 46_075_000 / 36 = 10_000_000 + 1_279_861
    assert_eq!(amount, 11_279_861);
    assert!(stake.is_winner);
    assert_eq!(stake.winnings, 11_279_861);
}

#[test]
fn winnings_second_withdrawal_fails_and_leaves_record() {
    let idea = completed_idea();
    let vote = vote_record(0);
    let mut stake = stake_record();
    let first = withdraw_winnings(&idea, &vote, &mut stake).unwrap();
    let before = stake;
    let second = withdraw_winnings(&idea, &vote, &mut stake);
    assert_eq!(second.err(), Some(ConsensusError::AlreadyWithdrawn));
    assert_eq!(stake, before);
    assert_eq!(stake.winnings, first);
}

#[test]
fn winnings_rejected_for_losing_vote() {
    let idea = completed_idea();
    let vote = vote_record(1);
    let mut stake = stake_record();
    let r = withdraw_winnings(&idea, &vote, &mut stake);
    assert_eq!(r.err(), Some(ConsensusError::NotWinner));
    assert!(!stake.is_winner);
}

#[test]
fn winnings_rejected_while_voting() {
    let idea = voting_idea([36, 25, 16, 9], 0, 10, 100_000_000);
    let vote = vote_record(0);
    let mut stake = stake_record();
    let r = withdraw_winnings(&idea, &vote, &mut stake);
    assert_eq!(r.err(), Some(ConsensusError::InvalidState));
}

#[test]
fn winnings_rejected_without_recorded_winner() {
    let mut idea = voting_idea([36, 25, 16, 9], 0, 10, 100_000_000);
    idea.status = IdeaStatus::Completed;
    let vote = vote_record(0);
    let mut stake = stake_record();
    let r = withdraw_winnings(&idea, &vote, &mut stake);
    assert_eq!(r.err(), Some(ConsensusError::NoWinner));
}

#[test]
fn winnings_rejected_on_zero_winner_count() {
    let mut idea = voting_idea([36, 25, 16, 9], 0, 10, 100_000_000);
    idea.status = IdeaStatus::Completed;
    idea.winning_image_index = Some(0);
    idea.winner_count = 0;
    let vote = vote_record(0);
    let mut stake = stake_record();
    let r = withdraw_winnings(&idea, &vote, &mut stake);
    assert_eq!(r.err(), Some(ConsensusError::DivisionByZero));
}

#[test]
fn refund_pays_full_stake_once() {
    let mut idea = voting_idea([36, 25, 16, 9], 0, 9, 100_000_000);
    settle_voting(&mut idea, VotingMode::Classic, 2_000).unwrap();
    assert_eq!(idea.status, IdeaStatus::Cancelled);
    let mut stake = stake_record();
    let amount = withdraw_refund(&idea, &mut stake).unwrap();
    assert_eq!(amount, 10_000_000);
    assert!(stake.is_winner);
    let again = withdraw_refund(&idea, &mut stake);
    assert_eq!(again.err(), Some(ConsensusError::AlreadyWithdrawn));
}

#[test]
fn refund_rejected_unless_cancelled() {
    let idea = completed_idea();
    let mut stake = stake_record();
    let r = withdraw_refund(&idea, &mut stake);
    assert_eq!(r.err(), Some(ConsensusError::InvalidState));
}
