//! Per-theme bonding-curve token market: initialization, minting, buying,
//! selling, and buyback-and-burn.
//!
//! Custody movements (base-currency transfers, token transfers, the burn)
//! are performed by the caller in the same atomic transaction; every amount
//! to be moved is returned in an outcome record and fixed by the contracts.

use vstd::prelude::*;

use crate::config::{
    BPS_DENOMINATOR, BUYBACK_THRESHOLD, CREATOR_RESERVE_PERCENT, CIRCULATING_PERCENT,
    INITIAL_SOL_RESERVES, MIN_SOL_TRADE, MIN_TOKEN_STAKE, THEME_STATUS_ACTIVE,
    TOKEN_TOTAL_SUPPLY, VOTING_MODE_CLASSIC, VOTING_MODE_MIDDLE_WAY, VOTING_MODE_REVERSE,
};
use crate::errors::{ConsensusError, ErrorCode};
use crate::math::{
    after_fee, bps_share, buy_tokens_out, calculate_buy_tokens, calculate_sell_sol, curve_sol_out,
    lemma_bps_share_bounds, lemma_curve_sol_le_reserves, lemma_fee_split_exact,
    lemma_round_trip_lossy, sell_sol_out,
};
use crate::settlement::VotingMode;

verus! {

/// Lifecycle state of a theme market.
#[derive(Clone, Copy, Debug, PartialEq, Eq, Structural)]
pub enum ThemeStatus {
    /// Trading is open.
    Active,
    /// Liquidity migrated to an external venue.
    Migrated,
    /// Trading is paused by external administration.
    Paused,
}

/// One bonding-curve token market.
pub struct Theme {
    /// Identity of the theme's creator.
    pub creator: u64,
    /// Caller-chosen numeric id; part of the theme's storage key.
    pub theme_id: u64,
    /// Fixed-size display name.
    pub name: [u8; 12],
    /// Fixed-size description.
    pub description: [u8; 48],
    /// Timestamp of creation.
    pub created_at: i64,
    /// Mint key of the theme's token; zero until minting.
    pub token_mint: u64,
    /// Total token supply, fixed at creation.
    pub total_supply: u64,
    /// Tokens in circulation (shrinks as buybacks burn).
    pub circulating_supply: u64,
    /// Tokens transferred to the creator at minting.
    pub creator_reserve: u64,
    /// Tokens held by the curve.
    pub token_reserves: u64,
    /// Base currency held by the curve.
    pub sol_reserves: u64,
    /// Accumulated base currency earmarked for buyback-and-burn.
    pub buyback_pool: u64,
    /// Default voting-mode tag for ideas under this theme.
    pub voting_mode: u8,
    /// Status tag: `THEME_STATUS_ACTIVE` or `THEME_STATUS_PAUSED`.
    pub status: u8,
}

/// Custody sub-account holding the reserves of exactly one theme.
pub struct ThemeVault {
    /// Key of the theme this vault belongs to.
    pub theme: u64,
}

/// Process-wide trade-fee configuration.
#[derive(Clone, Copy, Debug, PartialEq, Eq, Structural)]
pub struct TradingConfiguration {
    /// Fee charged on every trade, in basis points.
    pub trade_fee_bps: u16,
    /// Share of the fee routed to the buyback pool, in basis points.
    pub buyback_fee_split_bps: u16,
    /// Share of the fee routed to the platform, in basis points.
    pub platform_fee_split_bps: u16,
    /// Share of the fee routed to the theme creator, in basis points.
    pub creator_fee_split_bps: u16,
}

impl TradingConfiguration {
    /// Configuration invariant: the three splits cover the fee exactly,
    /// and the fee itself is a valid basis-point fraction.
    pub open spec fn wf(&self) -> bool {
        &&& self.trade_fee_bps <= BPS_DENOMINATOR
        &&& self.buyback_fee_split_bps + self.platform_fee_split_bps
            + self.creator_fee_split_bps == BPS_DENOMINATOR
    }
}

/// Validates and freezes the process-wide trading configuration: the three
/// fee splits must cover the whole fee.
pub fn initialize_trading_config(
    trade_fee_bps: u16,
    buyback_fee_split_bps: u16,
    platform_fee_split_bps: u16,
    creator_fee_split_bps: u16,
) -> (r: Result<TradingConfiguration, ErrorCode>)
    ensures
        r is Ok <==> buyback_fee_split_bps + platform_fee_split_bps + creator_fee_split_bps
            == BPS_DENOMINATOR,
        r is Ok ==> r->Ok_0 == (TradingConfiguration {
            trade_fee_bps,
            buyback_fee_split_bps,
            platform_fee_split_bps,
            creator_fee_split_bps,
        }),
        r is Err ==> r->Err_0 == ErrorCode::InvalidFeeSplits,
{
    let total: u32 = buyback_fee_split_bps as u32 + platform_fee_split_bps as u32
        + creator_fee_split_bps as u32;
    if total != BPS_DENOMINATOR as u32 {
        return Err(ErrorCode::InvalidFeeSplits);
    }
    Ok(
        TradingConfiguration {
            trade_fee_bps,
            buyback_fee_split_bps,
            platform_fee_split_bps,
            creator_fee_split_bps,
        },
    )
}

/// Encodes a voting mode as its persisted tag.
pub fn voting_mode_to_u8(voting_mode: VotingMode) -> (r: u8)
    ensures
        r == (match voting_mode {
            VotingMode::Classic => VOTING_MODE_CLASSIC,
            VotingMode::Reverse => VOTING_MODE_REVERSE,
            VotingMode::MiddleWay => VOTING_MODE_MIDDLE_WAY,
        }),
{
    match voting_mode {
        VotingMode::Classic => VOTING_MODE_CLASSIC,
        VotingMode::Reverse => VOTING_MODE_REVERSE,
        VotingMode::MiddleWay => VOTING_MODE_MIDDLE_WAY,
    }
}

/// Creates a theme with its fixed token economics: the full supply split
/// 80% into circulation (the initial token reserves) and 20% to the
/// creator, with empty base-currency reserves until the first trade.
/// The token mint is recorded later, by `mint_initial_tokens`.
pub fn initialize_theme(
    creator: u64,
    theme_id: u64,
    name: [u8; 12],
    description: [u8; 48],
    voting_mode: VotingMode,
    now: i64,
) -> (theme: Theme)
    ensures
        theme.creator == creator,
        theme.theme_id == theme_id,
        theme.name@ == name@,
        theme.description@ == description@,
        theme.created_at == now,
        theme.token_mint == 0,
        theme.total_supply == TOKEN_TOTAL_SUPPLY,
        theme.circulating_supply == TOKEN_TOTAL_SUPPLY as int / 100 * (CIRCULATING_PERCENT as int),
        theme.creator_reserve == TOKEN_TOTAL_SUPPLY as int / 100 * (CREATOR_RESERVE_PERCENT as int),
        theme.token_reserves == theme.circulating_supply,
        theme.sol_reserves == INITIAL_SOL_RESERVES,
        theme.buyback_pool == 0,
        theme.voting_mode == (match voting_mode {
            VotingMode::Classic => VOTING_MODE_CLASSIC,
            VotingMode::Reverse => VOTING_MODE_REVERSE,
            VotingMode::MiddleWay => VOTING_MODE_MIDDLE_WAY,
        }),
        theme.status == THEME_STATUS_ACTIVE,
{
    let circulating: u64 = (TOKEN_TOTAL_SUPPLY / 100) * (CIRCULATING_PERCENT as u64);
    let reserve: u64 = (TOKEN_TOTAL_SUPPLY / 100) * (CREATOR_RESERVE_PERCENT as u64);
    let mode_tag = voting_mode_to_u8(voting_mode);
    Theme {
        creator,
        theme_id,
        name,
        description,
        created_at: now,
        token_mint: 0,
        total_supply: TOKEN_TOTAL_SUPPLY,
        circulating_supply: circulating,
        creator_reserve: reserve,
        token_reserves: circulating,
        sol_reserves: INITIAL_SOL_RESERVES,
        buyback_pool: 0,
        voting_mode: mode_tag,
        status: THEME_STATUS_ACTIVE,
    }
}

/// The creator's share of a total supply: 20%, truncated.
fn calculate_creator_reserve(total_supply: u64) -> (r: Result<u64, ConsensusError>)
    ensures
        r is Ok <==> total_supply * (CREATOR_RESERVE_PERCENT as int) <= u64::MAX,
        r is Ok ==> r->Ok_0 == total_supply * (CREATOR_RESERVE_PERCENT as int) / 100,
        r is Err ==> r->Err_0 == ConsensusError::Overflow,
{
    let product = match total_supply.checked_mul(CREATOR_RESERVE_PERCENT as u64) {
        Some(v) => v,
        None => {
            return Err(ConsensusError::Overflow);
        },
    };
    Ok(product / 100)
}

/// The amounts minted and moved when a theme's token supply is created.
/// The caller mints `total_minted` into the theme vault's token account
/// and transfers `creator_reserve` of it on to the creator.
pub struct MintOutcome {
    /// Tokens minted into the vault: the full total supply.
    pub total_minted: u64,
    /// Tokens passed from the vault to the creator.
    pub creator_reserve: u64,
}

/// Mints the full supply into the theme's vault, carves out the creator's
/// 20% share, records the token mint, and leaves the remaining 80% as the
/// curve's token reserves.  Creates the theme's vault record.
pub fn mint_initial_tokens(theme: &mut Theme, token_mint: u64) -> (r: (ThemeVault, MintOutcome))
    ensures
        r.0.theme == old(theme).theme_id,
        r.1.total_minted == TOKEN_TOTAL_SUPPLY,
        r.1.creator_reserve == TOKEN_TOTAL_SUPPLY as int * (CREATOR_RESERVE_PERCENT as int) / 100,
        *final(theme) == (Theme {
            token_mint,
            token_reserves: (TOKEN_TOTAL_SUPPLY as int
                - TOKEN_TOTAL_SUPPLY as int * (CREATOR_RESERVE_PERCENT as int) / 100) as u64,
            ..*old(theme)
        }),
{
    let vault = ThemeVault { theme: theme.theme_id };
    theme.token_mint = token_mint;
    let total_supply: u64 = TOKEN_TOTAL_SUPPLY;
    let creator_reserve = match calculate_creator_reserve(total_supply) {
        Ok(v) => v,
        Err(_) => {
            // 20% of the fixed total supply always fits in 64 bits.
            proof {
                assert(false);
            }
            0
        },
    };
    theme.token_reserves = total_supply - creator_reserve;
    (vault, MintOutcome { total_minted: total_supply, creator_reserve })
}

/// First reason a buy is refused, or `None` when it executes.
pub open spec fn buy_rejection(
    theme: Theme,
    config: TradingConfiguration,
    sol_amount: u64,
    min_tokens_out: u64,
) -> Option<ConsensusError> {
    let fee = config.trade_fee_bps as int;
    if theme.status != THEME_STATUS_ACTIVE {
        Some(ConsensusError::InvalidTheme)
    } else if sol_amount < MIN_SOL_TRADE {
        Some(ConsensusError::InvalidAmount)
    } else if theme.token_reserves == 0 {
        Some(ConsensusError::InvalidAmount)
    } else if theme.sol_reserves + after_fee(sol_amount as int, fee) == 0 {
        Some(ConsensusError::DivisionByZero)
    } else if buy_tokens_out(
        sol_amount as int,
        theme.token_reserves as int,
        theme.sol_reserves as int,
        fee,
    ) < min_tokens_out {
        Some(ConsensusError::SlippageExceeded)
    } else if theme.sol_reserves + after_fee(sol_amount as int, fee) > u64::MAX
        || theme.buyback_pool + bps_share(
        bps_share(sol_amount as int, fee),
        config.buyback_fee_split_bps as int,
    ) > u64::MAX {
        Some(ConsensusError::Overflow)
    } else {
        None
    }
}

/// The transfers a buy performs.  The user pays `vault_deposit` (the
/// post-fee amount plus the buyback share) into the theme vault,
/// `platform_fee` to the platform treasury, and `creator_fee` to the theme
/// creator; the vault pays `tokens_out` tokens to the user.
pub struct BuyOutcome {
    /// Tokens the vault pays out to the buyer.
    pub tokens_out: u64,
    /// Base currency the buyer pays into the vault.
    pub vault_deposit: u64,
    /// Base currency the buyer pays to the platform treasury.
    pub platform_fee: u64,
    /// Base currency the buyer pays to the theme creator.
    pub creator_fee: u64,
}

/// Buys theme tokens with base currency on the constant-product curve.
/// The fee is carved off the input and split three ways; only the post-fee
/// amount and the buyback share enter the vault.
pub fn swap_sol_for_tokens(
    theme: &mut Theme,
    config: &TradingConfiguration,
    sol_amount: u64,
    min_tokens_out: u64,
) -> (r: Result<BuyOutcome, ConsensusError>)
    requires
        config.wf(),
    ensures
        r is Ok <==> buy_rejection(*old(theme), *config, sol_amount, min_tokens_out) is None,
        r is Err ==> *final(theme) == *old(theme)
            && Some(r->Err_0) == buy_rejection(*old(theme), *config, sol_amount, min_tokens_out),
        r is Ok ==> ({
            let fee = config.trade_fee_bps as int;
            let net_base = after_fee(sol_amount as int, fee);
            let total_fee = bps_share(sol_amount as int, fee);
            let buyback_fee = bps_share(total_fee, config.buyback_fee_split_bps as int);
            let tokens = buy_tokens_out(
                sol_amount as int,
                old(theme).token_reserves as int,
                old(theme).sol_reserves as int,
                fee,
            );
            &&& r->Ok_0 == (BuyOutcome {
                tokens_out: tokens as u64,
                vault_deposit: (net_base + buyback_fee) as u64,
                platform_fee: bps_share(total_fee, config.platform_fee_split_bps as int) as u64,
                creator_fee: bps_share(total_fee, config.creator_fee_split_bps as int) as u64,
            })
            &&& 0 <= tokens <= old(theme).token_reserves
            &&& *final(theme) == (Theme {
                sol_reserves: (old(theme).sol_reserves + net_base) as u64,
                token_reserves: (old(theme).token_reserves - tokens) as u64,
                buyback_pool: (old(theme).buyback_pool + buyback_fee) as u64,
                ..*old(theme)
            })
        }),
{
    if theme.status != THEME_STATUS_ACTIVE {
        return Err(ConsensusError::InvalidTheme);
    }
    if sol_amount < MIN_SOL_TRADE {
        return Err(ConsensusError::InvalidAmount);
    }
    let tokens_out = match calculate_buy_tokens(
        sol_amount,
        theme.token_reserves,
        theme.sol_reserves,
        config.trade_fee_bps,
    ) {
        Ok(v) => v,
        Err(e) => {
            return Err(e);
        },
    };
    if tokens_out < min_tokens_out {
        return Err(ConsensusError::SlippageExceeded);
    }
    let total_fee = calculate_total_fee(sol_amount, config.trade_fee_bps);
    let buyback_fee = calculate_fee_portion(total_fee, config.buyback_fee_split_bps);
    let platform_fee = calculate_fee_portion(total_fee, config.platform_fee_split_bps);
    let creator_fee = calculate_fee_portion(total_fee, config.creator_fee_split_bps);
    // Only the post-fee amount enters the reserves: the curve and the
    // reserve account see the same net input.
    proof {
        lemma_bps_share_bounds(sol_amount as int, config.trade_fee_bps as int);
        lemma_fee_split_exact(sol_amount as int, config.trade_fee_bps as int);
        assert((sol_amount as int) * ((BPS_DENOMINATOR - config.trade_fee_bps) as int)
            <= u64::MAX as int * (BPS_DENOMINATOR as int)) by (nonlinear_arith)
            requires
                sol_amount <= u64::MAX,
                config.trade_fee_bps <= BPS_DENOMINATOR,
        ;
    }
    let net_base: u64 = ((sol_amount as u128) * ((BPS_DENOMINATOR - config.trade_fee_bps) as u128)
        / (BPS_DENOMINATOR as u128)) as u64;
    let new_sol_reserves = match theme.sol_reserves.checked_add(net_base) {
        Some(v) => v,
        None => {
            return Err(ConsensusError::Overflow);
        },
    };
    let new_buyback_pool = match theme.buyback_pool.checked_add(buyback_fee) {
        Some(v) => v,
        None => {
            return Err(ConsensusError::Overflow);
        },
    };
    let vault_deposit = net_base + buyback_fee;
    theme.sol_reserves = new_sol_reserves;
    theme.token_reserves = theme.token_reserves - tokens_out;
    theme.buyback_pool = new_buyback_pool;
    Ok(BuyOutcome { tokens_out, vault_deposit, platform_fee, creator_fee })
}

/// The basis-point trade fee carved off a base-currency amount.
fn calculate_total_fee(sol_amount: u64, fee_bps: u16) -> (r: u64)
    requires
        fee_bps <= BPS_DENOMINATOR,
    ensures
        r == bps_share(sol_amount as int, fee_bps as int),
        r <= sol_amount,
{
    proof {
        lemma_bps_share_bounds(sol_amount as int, fee_bps as int);
        assert((sol_amount as int) * (fee_bps as int) <= u64::MAX as int * (BPS_DENOMINATOR as int))
            by (nonlinear_arith)
            requires
                sol_amount <= u64::MAX,
                fee_bps <= BPS_DENOMINATOR,
        ;
    }
    ((sol_amount as u128) * (fee_bps as u128) / (BPS_DENOMINATOR as u128)) as u64
}

/// One split's portion of a collected fee.
fn calculate_fee_portion(total_fee: u64, split_bps: u16) -> (r: u64)
    requires
        split_bps <= BPS_DENOMINATOR,
    ensures
        r == bps_share(total_fee as int, split_bps as int),
        r <= total_fee,
{
    proof {
        lemma_bps_share_bounds(total_fee as int, split_bps as int);
        assert((total_fee as int) * (split_bps as int) <= u64::MAX as int * (BPS_DENOMINATOR as int))
            by (nonlinear_arith)
            requires
                total_fee <= u64::MAX,
                split_bps <= BPS_DENOMINATOR,
        ;
    }
    ((total_fee as u128) * (split_bps as u128) / (BPS_DENOMINATOR as u128)) as u64
}

/// First reason a sell is refused, or `None` when it executes.
pub open spec fn sell_rejection(
    theme: Theme,
    config: TradingConfiguration,
    token_amount: u64,
    min_sol_out: u64,
) -> Option<ConsensusError> {
    let fee = config.trade_fee_bps as int;
    let gross = curve_sol_out(token_amount as int, theme.token_reserves as int, theme.sol_reserves as int);
    let net = sell_sol_out(token_amount as int, theme.token_reserves as int, theme.sol_reserves as int, fee);
    if theme.status != THEME_STATUS_ACTIVE {
        Some(ConsensusError::InvalidTheme)
    } else if token_amount < MIN_TOKEN_STAKE {
        Some(ConsensusError::InvalidAmount)
    } else if theme.sol_reserves == 0 {
        Some(ConsensusError::InvalidAmount)
    } else if net < min_sol_out {
        Some(ConsensusError::SlippageExceeded)
    } else if theme.token_reserves + token_amount > u64::MAX
        || theme.buyback_pool + bps_share(gross - net, config.buyback_fee_split_bps as int)
        > u64::MAX {
        Some(ConsensusError::Overflow)
    } else {
        None
    }
}

/// The transfers a sell performs.  The user pays `token_amount` tokens into
/// the vault; the vault pays `sol_out` base currency to the user.  The fee
/// stays in the vault, `buyback_fee` of it earmarked for buybacks.
pub struct SellOutcome {
    /// Base currency the vault pays out to the seller.
    pub sol_out: u64,
    /// Fee withheld from the gross curve output; stays in the vault.
    pub total_fee: u64,
    /// Share of the fee earmarked for the buyback pool.
    pub buyback_fee: u64,
}

/// Sells theme tokens for base currency on the constant-product curve.
/// The fee is carved off the gross output; the buyback share of it
/// accumulates in the buyback pool.
pub fn swap_tokens_for_sol(
    theme: &mut Theme,
    config: &TradingConfiguration,
    token_amount: u64,
    min_sol_out: u64,
) -> (r: Result<SellOutcome, ConsensusError>)
    requires
        config.wf(),
    ensures
        r is Ok <==> sell_rejection(*old(theme), *config, token_amount, min_sol_out) is None,
        r is Err ==> *final(theme) == *old(theme)
            && Some(r->Err_0) == sell_rejection(*old(theme), *config, token_amount, min_sol_out),
        r is Ok ==> ({
            let fee = config.trade_fee_bps as int;
            let gross = curve_sol_out(
                token_amount as int,
                old(theme).token_reserves as int,
                old(theme).sol_reserves as int,
            );
            let net = sell_sol_out(
                token_amount as int,
                old(theme).token_reserves as int,
                old(theme).sol_reserves as int,
                fee,
            );
            let buyback_fee = bps_share(gross - net, config.buyback_fee_split_bps as int);
            &&& 0 <= net <= gross <= old(theme).sol_reserves
            &&& r->Ok_0 == (SellOutcome {
                sol_out: net as u64,
                total_fee: (gross - net) as u64,
                buyback_fee: buyback_fee as u64,
            })
            &&& *final(theme) == (Theme {
                sol_reserves: (old(theme).sol_reserves - gross) as u64,
                token_reserves: (old(theme).token_reserves + token_amount) as u64,
                buyback_pool: (old(theme).buyback_pool + buyback_fee) as u64,
                ..*old(theme)
            })
        }),
{
    if theme.status != THEME_STATUS_ACTIVE {
        return Err(ConsensusError::InvalidTheme);
    }
    if token_amount < MIN_TOKEN_STAKE {
        return Err(ConsensusError::InvalidAmount);
    }
    let sol_out = match calculate_sell_sol(
        token_amount,
        theme.token_reserves,
        theme.sol_reserves,
        config.trade_fee_bps,
    ) {
        Ok(v) => v,
        Err(e) => {
            return Err(e);
        },
    };
    if sol_out < min_sol_out {
        return Err(ConsensusError::SlippageExceeded);
    }
    let sol_before_fee = match calculate_sell_sol(
        token_amount,
        theme.token_reserves,
        theme.sol_reserves,
        0,
    ) {
        Ok(v) => v,
        Err(_) => {
            proof {
                assert(false);
            }
            0
        },
    };
    proof {
        vstd::arithmetic::div_mod::lemma_div_by_multiple(
            curve_sol_out(
                token_amount as int,
                theme.token_reserves as int,
                theme.sol_reserves as int,
            ),
            BPS_DENOMINATOR as int,
        );
        lemma_curve_sol_le_reserves(
            token_amount as int,
            theme.token_reserves as int,
            theme.sol_reserves as int,
        );
        lemma_bps_share_bounds(
            curve_sol_out(
                token_amount as int,
                theme.token_reserves as int,
                theme.sol_reserves as int,
            ),
            config.trade_fee_bps as int,
        );
    }
    let total_fee = sol_before_fee - sol_out;
    let buyback_fee = calculate_fee_portion(total_fee, config.buyback_fee_split_bps);
    let new_token_reserves = match theme.token_reserves.checked_add(token_amount) {
        Some(v) => v,
        None => {
            return Err(ConsensusError::Overflow);
        },
    };
    let new_buyback_pool = match theme.buyback_pool.checked_add(buyback_fee) {
        Some(v) => v,
        None => {
            return Err(ConsensusError::Overflow);
        },
    };
    theme.sol_reserves = theme.sol_reserves - sol_before_fee;
    theme.token_reserves = new_token_reserves;
    theme.buyback_pool = new_buyback_pool;
    Ok(SellOutcome { sol_out, total_fee, buyback_fee })
}

/// Checks that a theme may run a buyback: it is active and the pool has
/// reached the execution threshold.
fn validate_buyback_conditions(theme: &Theme) -> (r: Result<(), ConsensusError>)
    ensures
        r is Ok <==> theme.status == THEME_STATUS_ACTIVE
            && theme.buyback_pool >= BUYBACK_THRESHOLD,
        r is Err ==> r->Err_0 == (if theme.status != THEME_STATUS_ACTIVE {
            ConsensusError::InvalidTheme
        } else {
            ConsensusError::InvalidAmount
        }),
{
    if theme.status != THEME_STATUS_ACTIVE {
        return Err(ConsensusError::InvalidTheme);
    }
    if theme.buyback_pool < BUYBACK_THRESHOLD {
        return Err(ConsensusError::InvalidAmount);
    }
    Ok(())
}

/// Tokens a buyback repurchases: the buy formula with no fee.
fn calculate_buyback_tokens(sol_amount: u64, token_reserves: u64, sol_reserves: u64) -> (r: Result<
    u64,
    ConsensusError,
>)
    ensures
        r is Ok <==> sol_amount > 0 && token_reserves > 0,
        r is Ok ==> r->Ok_0 == buy_tokens_out(
            sol_amount as int, token_reserves as int, sol_reserves as int, 0)
            && r->Ok_0 <= token_reserves,
        r is Err ==> r->Err_0 == ConsensusError::InvalidAmount,
{
    proof {
        vstd::arithmetic::div_mod::lemma_div_by_multiple(sol_amount as int, BPS_DENOMINATOR as int);
    }
    calculate_buy_tokens(sol_amount, token_reserves, sol_reserves, 0)
}

/// Moves a buyback's spend into the base-currency reserves and takes the
/// repurchased tokens out of the token reserves; fails without mutating
/// when the reserves cannot absorb the update.
fn update_reserves_after_buyback(theme: &mut Theme, sol_spent: u64, tokens_bought: u64) -> (r:
    Result<(), ConsensusError>)
    ensures
        r is Ok <==> old(theme).sol_reserves + sol_spent <= u64::MAX
            && tokens_bought <= old(theme).token_reserves,
        r is Err ==> *final(theme) == *old(theme) && r->Err_0 == ConsensusError::Overflow,
        r is Ok ==> *final(theme) == (Theme {
            sol_reserves: (old(theme).sol_reserves + sol_spent) as u64,
            token_reserves: (old(theme).token_reserves - tokens_bought) as u64,
            ..*old(theme)
        }),
{
    let new_sol_reserves = match theme.sol_reserves.checked_add(sol_spent) {
        Some(v) => v,
        None => {
            return Err(ConsensusError::Overflow);
        },
    };
    let new_token_reserves = match theme.token_reserves.checked_sub(tokens_bought) {
        Some(v) => v,
        None => {
            return Err(ConsensusError::Overflow);
        },
    };
    theme.sol_reserves = new_sol_reserves;
    theme.token_reserves = new_token_reserves;
    Ok(())
}

/// First reason a buyback is refused, or `None` when it executes.
pub open spec fn buyback_rejection(theme: Theme, vault_token_balance: u64) -> Option<
    ConsensusError,
> {
    let tokens = buy_tokens_out(
        theme.buyback_pool as int,
        theme.token_reserves as int,
        theme.sol_reserves as int,
        0,
    );
    if theme.status != THEME_STATUS_ACTIVE {
        Some(ConsensusError::InvalidTheme)
    } else if theme.buyback_pool < BUYBACK_THRESHOLD {
        Some(ConsensusError::InvalidAmount)
    } else if theme.token_reserves == 0 {
        Some(ConsensusError::InvalidAmount)
    } else if tokens > vault_token_balance {
        Some(ConsensusError::InsufficientReserves)
    } else if theme.sol_reserves + theme.buyback_pool > u64::MAX
        || theme.circulating_supply < tokens {
        Some(ConsensusError::Overflow)
    } else {
        None
    }
}

/// What a buyback did.  The caller burns `tokens_burned` from the theme
/// vault's token account; the spent base currency was already in the vault.
pub struct BuybackOutcome {
    /// Base currency moved from the buyback pool into the reserves.
    pub sol_spent: u64,
    /// Tokens repurchased from the curve and burned.
    pub tokens_burned: u64,
}

/// Spends the whole buyback pool on the curve (no fee), burns the tokens
/// bought, and folds the spend into the base-currency reserves.
/// `vault_token_balance` is the theme vault's actual token balance, which
/// must cover the burn.
pub fn execute_buyback(theme: &mut Theme, vault_token_balance: u64) -> (r: Result<
    BuybackOutcome,
    ConsensusError,
>)
    ensures
        r is Ok <==> buyback_rejection(*old(theme), vault_token_balance) is None,
        r is Err ==> *final(theme) == *old(theme)
            && Some(r->Err_0) == buyback_rejection(*old(theme), vault_token_balance),
        r is Ok ==> ({
            let tokens = buy_tokens_out(
                old(theme).buyback_pool as int,
                old(theme).token_reserves as int,
                old(theme).sol_reserves as int,
                0,
            );
            &&& 0 <= tokens <= old(theme).token_reserves
            &&& r->Ok_0 == (BuybackOutcome {
                sol_spent: old(theme).buyback_pool,
                tokens_burned: tokens as u64,
            })
            &&& *final(theme) == (Theme {
                sol_reserves: (old(theme).sol_reserves + old(theme).buyback_pool) as u64,
                token_reserves: (old(theme).token_reserves - tokens) as u64,
                circulating_supply: (old(theme).circulating_supply - tokens) as u64,
                buyback_pool: 0u64,
                ..*old(theme)
            })
        }),
{
    match validate_buyback_conditions(theme) {
        Ok(_) => {},
        Err(e) => {
            return Err(e);
        },
    }
    let sol_to_spend = theme.buyback_pool;
    let tokens_to_buy = match calculate_buyback_tokens(
        sol_to_spend,
        theme.token_reserves,
        theme.sol_reserves,
    ) {
        Ok(v) => v,
        Err(e) => {
            return Err(e);
        },
    };
    if tokens_to_buy > vault_token_balance {
        return Err(ConsensusError::InsufficientReserves);
    }
    let new_circulating = match theme.circulating_supply.checked_sub(tokens_to_buy) {
        Some(v) => v,
        None => {
            return Err(ConsensusError::Overflow);
        },
    };
    match update_reserves_after_buyback(theme, sol_to_spend, tokens_to_buy) {
        Ok(_) => {},
        Err(e) => {
            return Err(e);
        },
    }
    theme.circulating_supply = new_circulating;
    theme.buyback_pool = 0;
    Ok(BuybackOutcome { sol_spent: sol_to_spend, tokens_burned: tokens_to_buy })
}

/// A round trip on one theme is strictly lossy: buying tokens and at once
/// selling the bought amount back, against the reserves the buy leaves
/// behind, returns at most the base currency paid in.  The reserve values
/// named here are exactly those `swap_sol_for_tokens` ensures, and the
/// sell value exactly the one `swap_tokens_for_sol` pays out.
pub proof fn lemma_swap_round_trip_lossy(pre: Theme, config: TradingConfiguration, sol_in: u64)
    requires
        config.wf(),
        pre.token_reserves >= 1,
        pre.sol_reserves + after_fee(sol_in as int, config.trade_fee_bps as int) >= 1,
    ensures
        ({
            let fee = config.trade_fee_bps as int;
            let bought = buy_tokens_out(
                sol_in as int,
                pre.token_reserves as int,
                pre.sol_reserves as int,
                fee,
            );
            let new_sol_reserves = pre.sol_reserves + after_fee(sol_in as int, fee);
            let new_token_reserves = pre.token_reserves - bought;
            sell_sol_out(bought, new_token_reserves, new_sol_reserves, fee) <= sol_in
        }),
{
    lemma_round_trip_lossy(
        sol_in as int,
        pre.token_reserves as int,
        pre.sol_reserves as int,
        config.trade_fee_bps as int,
    );
}

} // verus!
