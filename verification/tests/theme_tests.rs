use taste_fun::config::{
    BUYBACK_THRESHOLD, INITIAL_TOKEN_RESERVES, MIN_SOL_TRADE, MIN_TOKEN_STAKE,
    THEME_STATUS_ACTIVE, THEME_STATUS_PAUSED, TOKEN_TOTAL_SUPPLY, VOTING_MODE_CLASSIC,
    VOTING_MODE_MIDDLE_WAY, VOTING_MODE_REVERSE,
};
use taste_fun::errors::{ConsensusError, ErrorCode};
use taste_fun::settlement::VotingMode;
use taste_fun::theme::{
    execute_buyback, initialize_theme, initialize_trading_config, mint_initial_tokens,
    swap_sol_for_tokens, swap_tokens_for_sol, voting_mode_to_u8, Theme, TradingConfiguration,
};

fn test_config() -> TradingConfiguration {
    initialize_trading_config(100, 5_000, 3_000, 2_000).unwrap()
}

fn minted_theme() -> Theme {
    let mut theme = initialize_theme(1, 7, [0u8; 12], [0u8; 48], VotingMode::Classic, 1_000);
    mint_initial_tokens(&mut theme, 55);
    theme
}

#[test]
fn trading_config_accepts_exact_split() {
    let config = test_config();
    assert_eq!(config.trade_fee_bps, 100);
    assert_eq!(config.buyback_fee_split_bps, 5_000);
    assert_eq!(config.platform_fee_split_bps, 3_000);
    assert_eq!(config.creator_fee_split_bps, 2_000);
}

#[test]
fn trading_config_rejects_bad_split() {
    let r = initialize_trading_config(100, 5_000, 3_000, 1_999);
    assert_eq!(r.err(), Some(ErrorCode::InvalidFeeSplits));
    let r2 = initialize_trading_config(100, 60_000, 60_000, 60_000);
    assert_eq!(r2.err(), Some(ErrorCode::InvalidFeeSplits));
}

#[test]
fn voting_mode_round_trip_tags() {
    assert_eq!(voting_mode_to_u8(VotingMode::Classic), VOTING_MODE_CLASSIC);
    assert_eq!(voting_mode_to_u8(VotingMode::Reverse), VOTING_MODE_REVERSE);
    assert_eq!(voting_mode_to_u8(VotingMode::MiddleWay), VOTING_MODE_MIDDLE_WAY);
    assert_eq!(VotingMode::from_u8(VOTING_MODE_CLASSIC), Some(VotingMode::Classic));
    assert_eq!(VotingMode::from_u8(VOTING_MODE_REVERSE), Some(VotingMode::Reverse));
    assert_eq!(VotingMode::from_u8(VOTING_MODE_MIDDLE_WAY), Some(VotingMode::MiddleWay));
    assert_eq!(VotingMode::from_u8(3), None);
}

#[test]
fn theme_starts_with_eighty_twenty_split() {
    let theme = initialize_theme(1, 7, [1u8; 12], [2u8; 48], VotingMode::Reverse, 1_000);
    assert_eq!(theme.creator, 1);
    assert_eq!(theme.theme_id, 7);
    assert_eq!(theme.total_supply, TOKEN_TOTAL_SUPPLY);
    assert_eq!(theme.circulating_supply, 800_000_000_000_000);
    assert_eq!(theme.creator_reserve, 200_000_000_000_000);
    assert_eq!(theme.token_reserves, INITIAL_TOKEN_RESERVES);
    assert_eq!(theme.sol_reserves, 0);
    assert_eq!(theme.buyback_pool, 0);
    assert_eq!(theme.voting_mode, VOTING_MODE_REVERSE);
    assert_eq!(theme.status, THEME_STATUS_ACTIVE);
    assert_eq!(theme.token_mint, 0);
}

#[test]
fn minting_records_mint_and_creator_share() {
    let mut theme = initialize_theme(1, 7, [0u8; 12], [0u8; 48], VotingMode::Classic, 1_000);
    let (vault, outcome) = mint_initial_tokens(&mut theme, 55);
    assert_eq!(vault.theme, 7);
    assert_eq!(outcome.total_minted, TOKEN_TOTAL_SUPPLY);
    assert_eq!(outcome.creator_reserve, 200_000_000_000_000);
    assert_eq!(theme.token_mint, 55);
    assert_eq!(theme.token_reserves, 800_000_000_000_000);
}

#[test]
fn first_buy_on_empty_reserves_takes_whole_reserve() {
    let mut theme = minted_theme();
    let config = test_config();
    let outcome = swap_sol_for_tokens(&mut theme, &config, 1_000_000, 0).unwrap();
    // net = 990_000; tokens = 800e12 * 990_000 / 990_000 = the full reserve.
    assert_eq!(outcome.tokens_out, 800_000_000_000_000);
    assert_eq!(theme.token_reserves, 0);
    assert_eq!(theme.sol_reserves, 990_000);
    // fee 10_000 splits 5_000 / 3_000 / 2_000.
    assert_eq!(theme.buyback_pool, 5_000);
    assert_eq!(outcome.vault_deposit, 995_000);
    assert_eq!(outcome.platform_fee, 3_000);
    assert_eq!(outcome.creator_fee, 2_000);
}

#[test]
fn buy_with_reserves_exact_amounts() {
    let mut theme = minted_theme();
    theme.token_reserves = 2_000_000;
    theme.sol_reserves = 1_000_000;
    let config = test_config();
    let outcome = swap_sol_for_tokens(&mut theme, &config, 1_000_000, 0).unwrap();
    assert_eq!(outcome.tokens_out, 994_974);
    assert_eq!(theme.token_reserves, 2_000_000 - 994_974);
    assert_eq!(theme.sol_reserves, 1_990_000);
    assert_eq!(theme.buyback_pool, 5_000);
}

#[test]
fn buy_reserve_update_uses_net_base() {
    // When sol_amount * fee is not a multiple of the denominator, the
    // post-fee amount is one short of amount-minus-fee; only the post-fee
    // amount enters the reserves, the odd unit stays with the buyer.
    let mut theme = minted_theme();
    theme.token_reserves = 2_000_000;
    theme.sol_reserves = 1_000_000;
    let config = test_config();
    // net = 1_000_001 * 9900 / 10000 = 990_000; fee = 10_000.
    let outcome = swap_sol_for_tokens(&mut theme, &config, 1_000_001, 0).unwrap();
    assert_eq!(theme.sol_reserves, 1_990_000);
    assert_eq!(outcome.vault_deposit, 990_000 + 5_000);
    assert_eq!(outcome.platform_fee, 3_000);
    assert_eq!(outcome.creator_fee, 2_000);
}

#[test]
fn buy_rejects_paused_theme() {
    let mut theme = minted_theme();
    theme.status = THEME_STATUS_PAUSED;
    let config = test_config();
    let r = swap_sol_for_tokens(&mut theme, &config, 1_000_000, 0);
    assert_eq!(r.err(), Some(ConsensusError::InvalidTheme));
}

#[test]
fn buy_rejects_dust_trade() {
    let mut theme = minted_theme();
    let config = test_config();
    let r = swap_sol_for_tokens(&mut theme, &config, MIN_SOL_TRADE - 1, 0);
    assert_eq!(r.err(), Some(ConsensusError::InvalidAmount));
}

#[test]
fn buy_rejects_slippage() {
    let mut theme = minted_theme();
    theme.token_reserves = 2_000_000;
    theme.sol_reserves = 1_000_000;
    let config = test_config();
    let r = swap_sol_for_tokens(&mut theme, &config, 1_000_000, 994_975);
    assert_eq!(r.err(), Some(ConsensusError::SlippageExceeded));
    assert_eq!(theme.sol_reserves, 1_000_000);
    assert_eq!(theme.token_reserves, 2_000_000);
}

#[test]
fn sell_exact_amounts() {
    let mut theme = minted_theme();
    theme.token_reserves = 2_000_000;
    theme.sol_reserves = 1_000_000;
    let config = test_config();
    let outcome = swap_tokens_for_sol(&mut theme, &config, 2_000_000, 0).unwrap();
    // gross = 1_000_000 * 2_000_000 / 4_000_000 = 500_000
    // net = 500_000 * 9900 / 10000 = 495_000; fee = 5_000
    assert_eq!(outcome.sol_out, 495_000);
    assert_eq!(outcome.total_fee, 5_000);
    assert_eq!(outcome.buyback_fee, 2_500);
    assert_eq!(theme.sol_reserves, 500_000);
    assert_eq!(theme.token_reserves, 4_000_000);
    assert_eq!(theme.buyback_pool, 2_500);
}

#[test]
fn sell_rejects_dust_trade() {
    let mut theme = minted_theme();
    theme.sol_reserves = 1_000_000;
    let config = test_config();
    let r = swap_tokens_for_sol(&mut theme, &config, MIN_TOKEN_STAKE - 1, 0);
    assert_eq!(r.err(), Some(ConsensusError::InvalidAmount));
}

#[test]
fn sell_rejects_empty_sol_reserves() {
    let mut theme = minted_theme();
    let config = test_config();
    let r = swap_tokens_for_sol(&mut theme, &config, 2_000_000, 0);
    assert_eq!(r.err(), Some(ConsensusError::InvalidAmount));
}

#[test]
fn sell_rejects_slippage() {
    let mut theme = minted_theme();
    theme.token_reserves = 2_000_000;
    theme.sol_reserves = 1_000_000;
    let config = test_config();
    let r = swap_tokens_for_sol(&mut theme, &config, 2_000_000, 495_001);
    assert_eq!(r.err(), Some(ConsensusError::SlippageExceeded));
    assert_eq!(theme.token_reserves, 2_000_000);
}

#[test]
fn buy_then_sell_back_loses_value() {
    // The round trip returns less base currency than was paid in.
    let mut theme = minted_theme();
    theme.token_reserves = 2_000_000_000;
    theme.sol_reserves = 1_000_000_000;
    let config = test_config();
    let sol_in: u64 = 50_000_000;
    let buy = swap_sol_for_tokens(&mut theme, &config, sol_in, 0).unwrap();
    let sell = swap_tokens_for_sol(&mut theme, &config, buy.tokens_out, 0).unwrap();
    assert!(sell.sol_out <= sol_in);
}

#[test]
fn buyback_spends_pool_and_burns() {
    let mut theme = minted_theme();
    theme.token_reserves = 800_000_000_000_000;
    theme.sol_reserves = 100_000_000;
    theme.buyback_pool = 100_000_000;
    let outcome = execute_buyback(&mut theme, 800_000_000_000_000).unwrap();
    assert_eq!(outcome.sol_spent, 100_000_000);
    // tokens = 800e12 * 1e8 / (1e8 + 1e8) = 400e12, burned from reserves
    // and circulation.
    assert_eq!(outcome.tokens_burned, 400_000_000_000_000);
    assert_eq!(theme.token_reserves, 400_000_000_000_000);
    assert_eq!(theme.sol_reserves, 200_000_000);
    assert_eq!(theme.circulating_supply, 400_000_000_000_000);
    assert_eq!(theme.buyback_pool, 0);
}

#[test]
fn buyback_rejects_thin_pool() {
    let mut theme = minted_theme();
    theme.buyback_pool = BUYBACK_THRESHOLD - 1;
    let r = execute_buyback(&mut theme, u64::MAX);
    assert_eq!(r.err(), Some(ConsensusError::InvalidAmount));
}

#[test]
fn buyback_rejects_paused_theme() {
    let mut theme = minted_theme();
    theme.status = THEME_STATUS_PAUSED;
    theme.buyback_pool = BUYBACK_THRESHOLD;
    let r = execute_buyback(&mut theme, u64::MAX);
    assert_eq!(r.err(), Some(ConsensusError::InvalidTheme));
}

#[test]
fn buyback_rejects_short_vault_balance() {
    let mut theme = minted_theme();
    theme.sol_reserves = 100_000_000;
    theme.buyback_pool = 100_000_000;
    let r = execute_buyback(&mut theme, 1_000);
    assert_eq!(r.err(), Some(ConsensusError::InsufficientReserves));
    assert_eq!(theme.buyback_pool, 100_000_000);
}
