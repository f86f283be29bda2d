use std::str::FromStr;

use lending_program::constants::{MAXIMUM_AGE, SOL_USD_FEED_ID, USDC_ADDRESS, USDC_USD_FEED_ID};
use lending_program::decimal::Dec;
use lending_program::feed::{pull_feed_value, result_value};
use lending_program::error::{InstructionError, LendingProgramError, PriceError};
use lending_program::instructions::absorb_loan::{
    absorb_loan, absorb_loan_at_tokens, absorb_loan_at_total, absorb_loan_at_value,
    absorb_loan_fits, absorb_loan_with_feed, checked_absorb_loan, AbsorbLoan, AbsorbLoanTransfers,
};
use lending_program::instructions::borrow_asset::{
    borrow_fits, checked_borrow_asset, mint_is_usdc, BorrowAsset,
};
use lending_program::instructions::deposit_collateral::{deposit_fits, DepositCollateral};
use lending_program::instructions::init_user::{self, initializeUser};
use lending_program::instructions::initialize_asset::{initialize_asset, AssetConfig, InitializeAsset};
use lending_program::instructions::initialize_pool::InitializePool;
use lending_program::instructions::initialize_user::InitializeUser;
use lending_program::instructions::liquidate::{
    checked_liquidate, liquidate, liquidate_at_loan_value, liquidate_with_feed, LiquidateUser,
};
use lending_program::instructions::stake_asset::{stake_asset, StakeAsset};
use lending_program::instructions::supply_collateral::{supply_collateral, SupplyCollateral};
use lending_program::instructions::withdraw_collateral::{withdraw_fits, WithdrawCollateral};
use lending_program::keys::{keys_equal, Pubkey};
use lending_program::oracle::{PriceFeedMessage, PriceUpdateV2, VerificationLevel};
use lending_program::state::pool_config::PoolConfig;
use lending_program::state::user_account::{User, UserAccount};
use lending_program::state::user_deposit_account::UserDepositAccount;

const MINT: Pubkey = [7u8; 32];
const OTHER_MINT: Pubkey = [9u8; 32];
const PAYER: Pubkey = [3u8; 32];

fn pool(total_deposits: u64, total_deposit_shares: u64) -> PoolConfig {
    PoolConfig {
        authority: PAYER,
        mint_address: MINT,
        total_deposits,
        total_deposit_shares,
        total_borrowed: 0,
        total_borrowed_shares: 0,
        liquidation_threshold: 0,
        liquidation_bonus: 0,
        liquidation_close_factor: 0,
        max_ltv: 0,
        last_updated: 0,
    }
}

fn user(deposited_usdc: u64, deposited_usdc_shares: u64) -> User {
    User {
        owner: PAYER,
        stake_points: 0,
        amount_staked: 0,
        deposited_usdc,
        deposited_sol: 0,
        deposited_usdc_shares,
        deposited_sol_shares: 0,
        borrowed_usdc: 0,
        borrowed_sol: 0,
        health_factor: 0,
        last_updated: 0,
        bump: 0,
    }
}

fn dec(lo: u32, negative: bool, scale: u32) -> Dec {
    Dec { lo, mid: 0, hi: 0, negative, scale }
}

fn hex_bytes(text: &str) -> [u8; 32] {
    let digits = text.trim_start_matches("0x");
    let mut out = [0u8; 32];
    for i in 0..32 {
        out[i] = u8::from_str_radix(&digits[2 * i..2 * i + 2], 16).unwrap();
    }
    out
}

fn price_update(feed_id: [u8; 32], level: VerificationLevel, publish_time: i64) -> PriceUpdateV2 {
    PriceUpdateV2 {
        write_authority: PAYER,
        verification_level: level,
        price_message: PriceFeedMessage {
            feed_id,
            price: 150,
            conf: 1,
            exponent: -2,
            publish_time,
            prev_publish_time: publish_time - 1,
            ema_price: 150,
            ema_conf: 1,
        },
        posted_slot: 1,
    }
}

fn borrow_ctx(update: PriceUpdateV2) -> BorrowAsset {
    let mut p = pool(1000, 1000);
    p.total_borrowed = 10;
    p.total_borrowed_shares = 10;
    p.max_ltv = 1;
    p.liquidation_threshold = 1;
    let mut u = user(100, 100);
    u.deposited_sol = 100;
    BorrowAsset { mint: MINT, pool: p, user_account: u, price_update: update }
}

// ---------- deposit_collateral

#[test]
fn deposit_into_empty_pool_counts_twice_in_the_pool() {
    let mut ctx = DepositCollateral { mint: MINT, user_account: user(0, 0), pool_config: pool(0, 0) };
    assert_eq!(ctx.deposit_collateral(100), Ok(()));
    assert_eq!(ctx.pool_config.total_deposits, 200);
    assert_eq!(ctx.pool_config.total_deposit_shares, 200);
    assert_eq!(ctx.user_account.deposited_usdc, 100);
    assert_eq!(ctx.user_account.deposited_usdc_shares, 100);
}

#[test]
fn deposit_into_pool_with_deposits_adds_shares_by_whole_ratio() {
    let mut ctx = DepositCollateral { mint: MINT, user_account: user(5, 1), pool_config: pool(50, 10) };
    assert_eq!(ctx.deposit_collateral(100), Ok(()));
    // 100 / 50 = 2, so 10 * 2 = 20 shares
    assert_eq!(ctx.pool_config.total_deposits, 150);
    assert_eq!(ctx.pool_config.total_deposit_shares, 30);
    assert_eq!(ctx.user_account.deposited_usdc, 105);
    assert_eq!(ctx.user_account.deposited_usdc_shares, 21);
}

#[test]
fn deposit_smaller_than_pool_total_earns_no_shares() {
    let mut ctx = DepositCollateral { mint: MINT, user_account: user(0, 0), pool_config: pool(1000, 400) };
    assert_eq!(ctx.deposit_collateral(999), Ok(()));
    assert_eq!(ctx.pool_config.total_deposits, 1999);
    assert_eq!(ctx.pool_config.total_deposit_shares, 400);
    assert_eq!(ctx.user_account.deposited_usdc_shares, 0);
}

#[test]
fn deposit_of_other_mint_is_refused_and_changes_nothing() {
    let mut ctx = DepositCollateral { mint: OTHER_MINT, user_account: user(5, 1), pool_config: pool(0, 0) };
    let before = ctx;
    assert_eq!(ctx.deposit_collateral(100), Err(LendingProgramError::UnsupportedMint));
    assert_eq!(ctx, before);
}

#[test]
fn program_deposit_entry_forwards() {
    let mut ctx = DepositCollateral { mint: MINT, user_account: user(0, 0), pool_config: pool(10, 10) };
    assert_eq!(lending_program::deposit_collateral(&mut ctx, 20), Ok(()));
    assert_eq!(ctx.pool_config.total_deposits, 30);
    assert_eq!(ctx.pool_config.total_deposit_shares, 30);
}

// ---------- withdraw_collateral

#[test]
fn withdraw_takes_amount_from_pool_and_shares_from_user() {
    let mut ctx = WithdrawCollateral { mint: MINT, pool: pool(1000, 500), user_account: user(300, 150) };
    assert_eq!(ctx.withdraw_collateral(200, 100), Ok(()));
    assert_eq!(ctx.pool.total_deposits, 800);
    assert_eq!(ctx.pool.total_deposit_shares, 400);
    assert_eq!(ctx.user_account.deposited_usdc, 200);
    assert_eq!(ctx.user_account.deposited_usdc_shares, 150);
}

#[test]
fn withdraw_of_more_than_deposited_is_refused() {
    let mut ctx = WithdrawCollateral { mint: MINT, pool: pool(1000, 500), user_account: user(300, 150) };
    let before = ctx;
    assert_eq!(ctx.withdraw_collateral(301, 1), Err(LendingProgramError::NotEnoughFunds));
    assert_eq!(ctx, before);
}

#[test]
fn withdraw_of_other_mint_is_refused() {
    let mut ctx = WithdrawCollateral { mint: OTHER_MINT, pool: pool(1000, 500), user_account: user(300, 150) };
    let before = ctx;
    assert_eq!(ctx.withdraw_collateral(1, 1), Err(LendingProgramError::UnsupportedMint));
    assert_eq!(ctx, before);
}

#[test]
fn deposit_then_withdraw_restores_the_pool_total() {
    let mut ctx = DepositCollateral { mint: MINT, user_account: user(0, 0), pool_config: pool(100, 100) };
    assert_eq!(ctx.deposit_collateral(300), Ok(()));
    let mut back = WithdrawCollateral { mint: MINT, pool: ctx.pool_config, user_account: ctx.user_account };
    assert_eq!(lending_program::withdraw_collateral(&mut back, 300, 250), Ok(()));
    assert_eq!(back.pool.total_deposits, 100);
    assert_eq!(back.user_account.deposited_usdc, 50);
}

// ---------- liquidate

#[test]
fn liquidate_without_feed_value_is_refused() {
    let ctx = LiquidateUser { user_account: UserAccount { borrowed_amount_in_usdc: 100, allowed_borrow_amount_in_usdc: 10 } };
    assert_eq!(liquidate(&ctx, None), Err(LendingProgramError::InvalidSwitchboardAccount));
}

#[test]
fn liquidate_when_loan_value_reaches_allowance() {
    let ctx = LiquidateUser { user_account: UserAccount { borrowed_amount_in_usdc: 100, allowed_borrow_amount_in_usdc: 150 } };
    // 100 * 1.5 = 150 >= 150
    assert_eq!(liquidate(&ctx, Some(dec(15, false, 1))), Ok(100));
}

#[test]
fn liquidate_when_margin_remains_is_refused() {
    let ctx = LiquidateUser { user_account: UserAccount { borrowed_amount_in_usdc: 100, allowed_borrow_amount_in_usdc: 151 } };
    assert_eq!(liquidate(&ctx, Some(dec(15, false, 1))), Err(LendingProgramError::MarginNotLargeEnough));
}

#[test]
fn liquidate_with_negative_price_is_refused() {
    let ctx = LiquidateUser { user_account: UserAccount { borrowed_amount_in_usdc: 100, allowed_borrow_amount_in_usdc: 0 } };
    assert_eq!(liquidate(&ctx, Some(dec(1, true, 0))), Err(LendingProgramError::MarginNotLargeEnough));
}

#[test]
fn checked_liquidate_reports_overflow() {
    let ctx = LiquidateUser { user_account: UserAccount { borrowed_amount_in_usdc: u64::MAX, allowed_borrow_amount_in_usdc: 0 } };
    let huge = Dec { lo: u32::MAX, mid: u32::MAX, hi: u32::MAX, negative: false, scale: 0 };
    assert_eq!(checked_liquidate(&ctx, Some(huge)), None);
    assert_eq!(checked_liquidate(&ctx, Some(dec(2, false, 0))), Some(Ok(u64::MAX)));
    assert_eq!(checked_liquidate(&ctx, Some(Dec { scale: 29, ..dec(1, false, 0) })), None);
}

// ---------- absorb_loan

fn absorb_ctx(borrowed: u64, allowed: u64, deposit: u64) -> AbsorbLoan {
    AbsorbLoan {
        user_account: UserAccount { borrowed_amount_in_usdc: borrowed, allowed_borrow_amount_in_usdc: allowed },
        user_deposit_account: UserDepositAccount { amount: deposit },
    }
}

#[test]
fn absorb_loan_hands_over_collateral_with_reward() {
    let mut ctx = absorb_ctx(100, 100, 500);
    // value 100 * 2 = 200, reward 100 / 20 = 5, tokens (200 + 5) / 2 = 102.5 -> 102
    let r = absorb_loan(&mut ctx, Some(dec(2, false, 0)));
    assert_eq!(r, Ok(AbsorbLoanTransfers { loan_amount: 100, loan_token_amount: 102 }));
    assert_eq!(ctx.user_deposit_account.amount, 398);
    assert_eq!(ctx.user_account.allowed_borrow_amount_in_usdc, 199);
    assert_eq!(ctx.user_account.borrowed_amount_in_usdc, 100);
}

#[test]
fn absorb_loan_with_margin_left_is_refused() {
    let mut ctx = absorb_ctx(100, 201, 500);
    let before = ctx;
    assert_eq!(absorb_loan(&mut ctx, Some(dec(2, false, 0))), Err(LendingProgramError::MarginNotLargeEnough));
    assert_eq!(ctx, before);
}

#[test]
fn absorb_loan_without_feed_value_is_refused() {
    let mut ctx = absorb_ctx(100, 1, 500);
    let before = ctx;
    assert_eq!(absorb_loan(&mut ctx, None), Err(LendingProgramError::InvalidSwitchboardAccount));
    assert_eq!(ctx, before);
}

#[test]
fn absorb_loan_refuses_collateral_beyond_u64() {
    // value 10^11 * 10^-10 = 10, reward 5 * 10^9, tokens (5 * 10^9 + 10) * 10^10 > u64::MAX
    let mut ctx = absorb_ctx(100_000_000_000, 0, u64::MAX);
    let before = ctx;
    assert!(absorb_loan_fits(&ctx, Some(dec(1, false, 10))));
    assert_eq!(absorb_loan(&mut ctx, Some(dec(1, false, 10))), Err(LendingProgramError::InvalidSwitchboardAccount));
    assert_eq!(ctx, before);
}

#[test]
fn checked_absorb_loan_reports_zero_price_and_short_deposit() {
    let mut ctx = absorb_ctx(100, 0, 500);
    let before = ctx;
    assert_eq!(checked_absorb_loan(&mut ctx, Some(dec(0, false, 0))), None);
    assert_eq!(ctx, before);
    let mut short = absorb_ctx(100, 100, 50);
    assert_eq!(checked_absorb_loan(&mut short, Some(dec(2, false, 0))), None);
    let mut fine = absorb_ctx(100, 100, 500);
    assert_eq!(
        checked_absorb_loan(&mut fine, Some(dec(2, false, 0))),
        Some(Ok(AbsorbLoanTransfers { loan_amount: 100, loan_token_amount: 102 }))
    );
}

#[test]
fn liquidation_and_purchase_agree_on_the_margin() {
    let user = UserAccount { borrowed_amount_in_usdc: 100, allowed_borrow_amount_in_usdc: 150 };
    let price = dec(15, false, 1);
    assert!(liquidate(&LiquidateUser { user_account: user }, Some(price)).is_ok());
    let mut ctx = AbsorbLoan { user_account: user, user_deposit_account: UserDepositAccount { amount: 1000 } };
    assert!(absorb_loan(&mut ctx, Some(price)).is_ok());
    let tight = UserAccount { borrowed_amount_in_usdc: 100, allowed_borrow_amount_in_usdc: 151 };
    let mut ctx = AbsorbLoan { user_account: tight, user_deposit_account: UserDepositAccount { amount: 1000 } };
    assert_eq!(liquidate(&LiquidateUser { user_account: tight }, Some(price)), Err(LendingProgramError::MarginNotLargeEnough));
    assert_eq!(absorb_loan(&mut ctx, Some(price)), Err(LendingProgramError::MarginNotLargeEnough));
}

// ---------- borrow_asset

#[test]
fn borrow_reading_sol_price_fails_on_usdc_price() {
    let mut ctx = borrow_ctx(price_update(hex_bytes(SOL_USD_FEED_ID), VerificationLevel::Full, 1000));
    let before = ctx;
    assert_eq!(ctx.borrow_asset(1, 1000), Err(InstructionError::Price(PriceError::MismatchedFeedId)));
    assert_eq!(ctx, before);
}

#[test]
fn borrow_reading_usdc_price_fails_on_sol_price() {
    let mut ctx = borrow_ctx(price_update(hex_bytes(USDC_USD_FEED_ID), VerificationLevel::Full, 1000));
    assert_eq!(lending_program::borrow_asset(&mut ctx, 1, 1000), Err(InstructionError::Price(PriceError::MismatchedFeedId)));
}

#[test]
fn borrow_with_partially_verified_update_is_refused() {
    let mut ctx = borrow_ctx(price_update(hex_bytes(SOL_USD_FEED_ID), VerificationLevel::Partial { num_signatures: 5 }, 1000));
    assert_eq!(ctx.borrow_asset(1, 1000), Err(InstructionError::Price(PriceError::InsufficientVerificationLevel)));
}

#[test]
fn borrow_with_old_price_is_refused() {
    let age = MAXIMUM_AGE as i64;
    let mut ctx = borrow_ctx(price_update(hex_bytes(SOL_USD_FEED_ID), VerificationLevel::Full, 1000));
    assert_eq!(ctx.borrow_asset(1, 1000 + age + 1), Err(InstructionError::Price(PriceError::PriceTooOld)));
    // exactly at the maximum age the SOL price is still accepted, and the USDC lookup fails
    assert_eq!(ctx.borrow_asset(1, 1000 + age), Err(InstructionError::Price(PriceError::MismatchedFeedId)));
}

#[test]
fn usdc_mint_is_recognised_by_its_address() {
    let usdc = anchor_lang::prelude::Pubkey::from_str(USDC_ADDRESS).unwrap().to_bytes();
    assert!(mint_is_usdc(&usdc));
    assert!(!mint_is_usdc(&MINT));
}

// ---------- initialisers and keys

#[test]
fn initialize_user_sets_owner_and_time() {
    let mut ctx = InitializeUser { payer: [1u8; 32], user_account: user(4, 2) };
    assert_eq!(ctx.initialize_user(77), Ok(()));
    assert_eq!(ctx.user_account.owner, [1u8; 32]);
    assert_eq!(ctx.user_account.last_updated, 77);
    assert_eq!(ctx.user_account.deposited_usdc, 4);
    let mut again = InitializeUser { payer: [2u8; 32], user_account: user(0, 0) };
    assert_eq!(lending_program::initialize_user(&mut again, 5), Ok(()));
    assert_eq!(again.user_account.owner, [2u8; 32]);
}

#[test]
fn initialize_pool_sets_its_parameters() {
    let mut ctx = InitializePool { payer: PAYER, mint: OTHER_MINT, pool_config: pool(0, 0) };
    assert_eq!(ctx.initialize_pool(80, 75, 12), Ok(()));
    assert_eq!(ctx.pool_config.mint_address, OTHER_MINT);
    assert_eq!(ctx.pool_config.authority, PAYER);
    assert_eq!(ctx.pool_config.liquidation_threshold, 80);
    assert_eq!(ctx.pool_config.max_ltv, 75);
    assert_eq!(ctx.pool_config.last_updated, 12);
    let mut other = InitializePool { payer: PAYER, mint: MINT, pool_config: pool(0, 0) };
    assert_eq!(lending_program::initialize_pool(&mut other, 1, 2, 3), Ok(()));
    assert_eq!(other.pool_config.max_ltv, 2);
}

#[test]
fn opened_pool_accepts_deposits_of_its_mint() {
    let mut opened = InitializePool { payer: PAYER, mint: OTHER_MINT, pool_config: pool(0, 0) };
    assert_eq!(opened.initialize_pool(80, 75, 12), Ok(()));
    let mut ctx = DepositCollateral { mint: OTHER_MINT, user_account: user(0, 0), pool_config: opened.pool_config };
    assert_eq!(ctx.deposit_collateral(10), Ok(()));
}

#[test]
fn initialize_asset_writes_parameters() {
    let mut ctx = InitializeAsset {
        payer: PAYER,
        mint: MINT,
        asset_config: AssetConfig { max_ltv: 0, liquidation_threshold: 0, apy: 0 },
    };
    assert_eq!(initialize_asset(&mut ctx, 7, 8, 9), Ok(()));
    assert_eq!(ctx.asset_config, AssetConfig { max_ltv: 7, liquidation_threshold: 8, apy: 9 });
}

#[test]
fn placeholder_instructions_accept() {
    assert_eq!(initializeUser(&init_user::InitializeUser { payer: PAYER }), Ok(()));
    assert_eq!(stake_asset(&StakeAsset { signer: PAYER }, 5), Ok(()));
    assert_eq!(
        supply_collateral(&SupplyCollateral { user_token_account: PAYER, mint: MINT, payer: PAYER }),
        Ok(())
    );
}

#[test]
fn keys_compare_byte_for_byte() {
    let mut almost = MINT;
    almost[31] = 8;
    assert!(keys_equal(&MINT, &MINT));
    assert!(!keys_equal(&MINT, &almost));
}

// ---------- range checks

#[test]
fn deposit_fits_flags_overflow_and_zero_division() {
    let ctx = DepositCollateral { mint: MINT, user_account: user(0, 0), pool_config: pool(0, 0) };
    assert!(!deposit_fits(&ctx, 0));
    assert!(deposit_fits(&ctx, 10));
    let full = DepositCollateral { mint: MINT, user_account: user(u64::MAX, 0), pool_config: pool(1, 1) };
    assert!(!deposit_fits(&full, 1));
    let other = DepositCollateral { mint: OTHER_MINT, user_account: user(u64::MAX, 0), pool_config: pool(1, 1) };
    assert!(deposit_fits(&other, 1));
}

#[test]
fn withdraw_fits_flags_underflow() {
    let ctx = WithdrawCollateral { mint: MINT, pool: pool(100, 10), user_account: user(50, 5) };
    assert!(withdraw_fits(&ctx, 50, 10));
    assert!(!withdraw_fits(&ctx, 50, 11));
    assert!(!withdraw_fits(&ctx, 50, 51));
    assert!(withdraw_fits(&ctx, 51, 1000));
}

#[test]
fn borrow_fits_when_prices_cannot_be_read() {
    let ctx = borrow_ctx(price_update(hex_bytes(SOL_USD_FEED_ID), VerificationLevel::Full, 1000));
    assert!(borrow_fits(&ctx, 1, 1000));
}

// ---------- oracle feed

#[test]
fn result_value_reads_eighteen_decimals() {
    assert_eq!(result_value(5, 0), Some(None));
    assert_eq!(result_value(1_500_000_000_000_000_000, 7), Some(Some(Dec {
        lo: 0x7B16_0000,
        mid: 0x14D1_120D,
        hi: 0,
        negative: false,
        scale: 18,
    })));
    assert_eq!(result_value(-1, 7), Some(Some(Dec { lo: 1, mid: 0, hi: 0, negative: true, scale: 18 })));
    assert_eq!(result_value(1i128 << 96, 7), None);
}

#[test]
fn feed_data_that_does_not_parse_gives_nothing() {
    let mut data = vec![0u8; 64];
    assert_eq!(pull_feed_value(&mut data), None);
    let mut short = vec![196u8, 27];
    assert_eq!(pull_feed_value(&mut short), None);
    let ctx = LiquidateUser { user_account: UserAccount { borrowed_amount_in_usdc: 1, allowed_borrow_amount_in_usdc: 0 } };
    assert_eq!(liquidate_with_feed(&ctx, &mut data), None);
    let mut absorb = absorb_ctx(1, 0, 10);
    let before = absorb;
    assert_eq!(absorb_loan_with_feed(&mut absorb, &mut data), None);
    assert_eq!(absorb, before);
    assert_eq!(data, vec![0u8; 64]);
}

#[test]
fn liquidate_at_zero_price_needs_zero_allowance() {
    let free = LiquidateUser { user_account: UserAccount { borrowed_amount_in_usdc: 100, allowed_borrow_amount_in_usdc: 0 } };
    assert_eq!(liquidate(&free, Some(dec(0, false, 3))), Ok(100));
    let bound = LiquidateUser { user_account: UserAccount { borrowed_amount_in_usdc: 100, allowed_borrow_amount_in_usdc: 1 } };
    assert_eq!(liquidate(&bound, Some(dec(0, false, 3))), Err(LendingProgramError::MarginNotLargeEnough));
}

#[test]
fn pull_feed_account_data_is_3200_bytes() {
    assert_eq!(std::mem::size_of::<switchboard_on_demand::PullFeedAccountData>(), 3200);
}

/// Pull feed account data: the discriminator, then a current result with the given value
/// and slot at their places, all else zero.
fn feed_account(value: i128, slot: u64) -> Vec<u8> {
    let mut data = vec![0u8; 3208];
    data[..8].copy_from_slice(&[196, 27, 108, 196, 10, 215, 219, 40]);
    data[2264..2280].copy_from_slice(&value.to_ne_bytes());
    data[2368..2376].copy_from_slice(&slot.to_ne_bytes());
    data
}

/// Runs `f` on copies of the account data placed at each offset of a larger buffer, and
/// keeps what it gives where the data lay well enough aligned to parse.
fn at_each_offset<T: PartialEq + std::fmt::Debug>(
    data: &[u8],
    mut f: impl FnMut(&mut [u8]) -> Option<T>,
) -> Vec<T> {
    let mut parsed = Vec::new();
    for offset in 0usize..32 {
        let mut buffer = vec![0u8; offset + data.len()];
        buffer[offset..].copy_from_slice(data);
        if let Some(r) = f(&mut buffer[offset..]) {
            parsed.push(r);
        }
        assert_eq!(&buffer[offset..], data);
    }
    assert!(!parsed.is_empty());
    parsed
}

#[test]
fn pull_feed_value_reads_the_current_result() {
    let data = feed_account(1_500_000_000_000_000_000, 7);
    let expected = Dec { lo: 0x7B16_0000, mid: 0x14D1_120D, hi: 0, negative: false, scale: 18 };
    for r in at_each_offset(&data, |d| pull_feed_value(d)) {
        assert_eq!(r, Some(expected));
    }
    let fresh = feed_account(1_500_000_000_000_000_000, 0);
    for r in at_each_offset(&fresh, |d| pull_feed_value(d)) {
        assert_eq!(r, None);
    }
}

#[test]
fn liquidate_with_feed_reads_the_price_from_the_account() {
    let data = feed_account(1_500_000_000_000_000_000, 7);
    let due = LiquidateUser { user_account: UserAccount { borrowed_amount_in_usdc: 100, allowed_borrow_amount_in_usdc: 150 } };
    for r in at_each_offset(&data, |d| liquidate_with_feed(&due, d)) {
        assert_eq!(r, Ok(100));
    }
    let safe = LiquidateUser { user_account: UserAccount { borrowed_amount_in_usdc: 100, allowed_borrow_amount_in_usdc: 151 } };
    for r in at_each_offset(&data, |d| liquidate_with_feed(&safe, d)) {
        assert_eq!(r, Err(LendingProgramError::MarginNotLargeEnough));
    }
    let fresh = feed_account(1_500_000_000_000_000_000, 0);
    for r in at_each_offset(&fresh, |d| liquidate_with_feed(&due, d)) {
        assert_eq!(r, Err(LendingProgramError::InvalidSwitchboardAccount));
    }
}

#[test]
fn absorb_loan_with_feed_reads_the_price_from_the_account() {
    let data = feed_account(1_500_000_000_000_000_000, 7);
    // value 100 * 1.5 = 150, reward 5, tokens 155 / 1.5 = 103.33.. -> 103
    for (r, after) in at_each_offset(&data, |d| {
        let mut ctx = absorb_ctx(100, 100, 500);
        absorb_loan_with_feed(&mut ctx, d).map(|r| (r, ctx))
    }) {
        assert_eq!(r, Ok(AbsorbLoanTransfers { loan_amount: 100, loan_token_amount: 103 }));
        assert_eq!(after, absorb_ctx(100, 198, 397));
    }
}

#[test]
fn liquidate_at_loan_value_compares_with_the_allowance() {
    let ctx = LiquidateUser { user_account: UserAccount { borrowed_amount_in_usdc: 100, allowed_borrow_amount_in_usdc: 150 } };
    assert_eq!(liquidate_at_loan_value(&ctx, &dec(1500, false, 1)), Ok(100));
    assert_eq!(liquidate_at_loan_value(&ctx, &dec(1499, false, 1)), Err(LendingProgramError::MarginNotLargeEnough));
}

#[test]
fn absorb_loan_steps_take_the_intermediate_results() {
    let mut ctx = absorb_ctx(100, 100, 500);
    assert_eq!(
        absorb_loan_at_value(&mut ctx, &dec(2, false, 0), &dec(200, false, 0)),
        Ok(AbsorbLoanTransfers { loan_amount: 100, loan_token_amount: 102 })
    );
    assert_eq!(ctx, absorb_ctx(100, 199, 398));
    let mut ctx = absorb_ctx(100, 100, 500);
    assert_eq!(
        absorb_loan_at_value(&mut ctx, &dec(2, false, 0), &dec(99, false, 0)),
        Err(LendingProgramError::MarginNotLargeEnough)
    );
    assert_eq!(ctx, absorb_ctx(100, 100, 500));
    let mut ctx = absorb_ctx(100, 100, 500);
    assert_eq!(
        absorb_loan_at_total(&mut ctx, &dec(2, false, 0), &dec(205, false, 0)),
        Ok(AbsorbLoanTransfers { loan_amount: 100, loan_token_amount: 102 })
    );
    assert_eq!(ctx, absorb_ctx(100, 199, 398));
    let mut ctx = absorb_ctx(100, 100, 500);
    assert_eq!(
        absorb_loan_at_tokens(&mut ctx, &dec(1025, false, 1)),
        Ok(AbsorbLoanTransfers { loan_amount: 100, loan_token_amount: 102 })
    );
    assert_eq!(ctx, absorb_ctx(100, 199, 398));
    let mut ctx = absorb_ctx(100, 100, 500);
    assert_eq!(absorb_loan_at_tokens(&mut ctx, &dec(1, true, 0)), Err(LendingProgramError::InvalidSwitchboardAccount));
    assert_eq!(ctx, absorb_ctx(100, 100, 500));
}

#[test]
fn lower_allowance_or_higher_price_keeps_liquidation() {
    let user = UserAccount { borrowed_amount_in_usdc: 100, allowed_borrow_amount_in_usdc: 150 };
    let lowered = UserAccount { allowed_borrow_amount_in_usdc: 120, ..user };
    let price = dec(15, false, 1);
    assert_eq!(liquidate(&LiquidateUser { user_account: user }, Some(price)), Ok(100));
    assert_eq!(liquidate(&LiquidateUser { user_account: lowered }, Some(price)), Ok(100));
    assert_eq!(liquidate(&LiquidateUser { user_account: user }, Some(dec(16, false, 1))), Ok(100));
    assert_eq!(liquidate(&LiquidateUser { user_account: user }, Some(dec(14, false, 1))), Err(LendingProgramError::MarginNotLargeEnough));
}

#[test]
fn checked_borrow_asset_reports_the_price_error() {
    let mut ctx = borrow_ctx(price_update(hex_bytes(SOL_USD_FEED_ID), VerificationLevel::Full, 1000));
    let before = ctx;
    assert_eq!(
        checked_borrow_asset(&mut ctx, 1, 1000),
        Some(Err(InstructionError::Price(PriceError::MismatchedFeedId)))
    );
    assert_eq!(ctx, before);
}

#[test]
fn absorb_loan_at_price_five_divides_exactly() {
    // value 100 * 5 = 500, reward 5, tokens 505 / 5 = 101
    let mut ctx = absorb_ctx(100, 100, 1000);
    assert_eq!(
        absorb_loan(&mut ctx, Some(dec(5, false, 0))),
        Ok(AbsorbLoanTransfers { loan_amount: 100, loan_token_amount: 101 })
    );
    assert_eq!(ctx, absorb_ctx(100, 449, 899));
}

#[test]
fn usdc_mint_text_is_base58() {
    let mut ones = [0u8; 32];
    ones[31] = 1;
    assert_eq!(anchor_lang::prelude::Pubkey::new_from_array(ones).to_string(), "11111111111111111111111111111112");
    assert!(!mint_is_usdc(&ones));
}
