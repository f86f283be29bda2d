use vstd::prelude::*;

use crate::constants::{lemma_feed_id_texts, SOL_USD_FEED_ID, USDC_USD_FEED_ID};
use crate::decimal::{
    dec_ge, dec_of_u64, dec_to_u64, decimal_product, decimal_quotient, decimal_sum, lemma_dec_of_u64,
    lemma_pow10_positive, max_magnitude, pow10, Dec,
};
use crate::feed::current_result_value;
use crate::error::LendingProgramError;
use crate::instructions::absorb_loan::{
    absorb_loan_in_range, absorb_loan_outcome, AbsorbLoan, AbsorbLoanTransfers,
};
use crate::instructions::borrow_asset::{
    borrow_outcome, borrow_prices, borrowable_amount, BorrowAsset,
};
use crate::instructions::deposit_collateral::{
    deposit_in_range, deposit_mint_matches, deposit_outcome, DepositCollateral,
};
use crate::instructions::liquidate::{liquidate_in_range, liquidate_outcome, loan_reaches_allowance, loan_value};
use crate::instructions::withdraw_collateral::{
    withdraw_in_range, withdraw_outcome, WithdrawCollateral,
};
use crate::oracle::{feed_id_from_hex, hex_decode, hex_digit};
use crate::state::pool_config::PoolConfig;
use crate::state::user_account::{User, UserAccount};
use crate::state::user_deposit_account::UserDepositAccount;
use vstd::string::StringSliceAdditionalSpecFns;

verus! {

/// A refused deposit, withdrawal, borrow or loan purchase leaves its accounts as they were.
pub proof fn law_refusals_change_nothing(
    deposit: DepositCollateral,
    withdraw: WithdrawCollateral,
    borrow: BorrowAsset,
    absorb: AbsorbLoan,
    amount: u64,
    shares_to_remove: u64,
    now: i64,
    feed_value: Option<Dec>,
)
    ensures
        deposit_outcome(deposit, amount).0 is Err ==> deposit_outcome(deposit, amount).1
            == deposit,
        withdraw_outcome(withdraw, amount, shares_to_remove).0 is Err ==> withdraw_outcome(
            withdraw,
            amount,
            shares_to_remove,
        ).1 == withdraw,
        borrow_outcome(borrow, amount, now).0 is Err ==> borrow_outcome(borrow, amount, now).1
            == borrow,
        absorb_loan_outcome(absorb, feed_value).0 is Err ==> absorb_loan_outcome(
            absorb,
            feed_value,
        ).1 == absorb,
{
}

/// A deposit into a pool that holds deposits adds the amount to the user's deposit and to
/// the pool's total, and the same shares to the user and to the pool.
pub proof fn law_deposit_credits_user_and_pool_alike(ctx: DepositCollateral, amount: u64)
    requires
        deposit_in_range(ctx, amount),
        ctx.pool_config.total_deposits != 0,
        deposit_mint_matches(ctx),
    ensures
        ({
            let (r, after) = deposit_outcome(ctx, amount);
            &&& r is Ok
            &&& after.user_account.deposited_usdc == ctx.user_account.deposited_usdc + amount
            &&& after.pool_config.total_deposits == ctx.pool_config.total_deposits + amount
            &&& after.user_account.deposited_usdc_shares - ctx.user_account.deposited_usdc_shares
                == after.pool_config.total_deposit_shares
                - ctx.pool_config.total_deposit_shares
        }),
{
}

/// The first deposit into an empty pool counts twice in the pool's total and shares,
/// and once in the user's deposit and shares.
pub proof fn law_first_deposit_counts_twice(ctx: DepositCollateral, amount: u64)
    requires
        deposit_in_range(ctx, amount),
        ctx.pool_config.total_deposits == 0,
        deposit_mint_matches(ctx),
    ensures
        ({
            let (r, after) = deposit_outcome(ctx, amount);
            &&& r is Ok
            &&& after.pool_config.total_deposits == 2 * amount
            &&& after.pool_config.total_deposit_shares == 2 * amount
            &&& after.user_account.deposited_usdc == ctx.user_account.deposited_usdc + amount
            &&& after.user_account.deposited_usdc_shares
                == ctx.user_account.deposited_usdc_shares + amount
        }),
{
    assert(amount != 0);
    assert(amount / amount == 1) by (nonlinear_arith)
        requires
            amount != 0,
    ;
}

/// A pool accepts deposits of the mint it was opened with: the deposit is refused for
/// another mint only.
pub proof fn law_opened_pool_accepts_its_mint(
    payer: crate::keys::Pubkey,
    mint: crate::keys::Pubkey,
    pool: PoolConfig,
    liquidation_threshold: u64,
    max_ltv: u64,
    now: i64,
    user: crate::state::user_account::User,
    amount: u64,
)
    ensures
        ({
            let opened = PoolConfig {
                mint_address: mint,
                authority: payer,
                liquidation_threshold,
                max_ltv,
                last_updated: now,
                ..pool
            };
            let ctx = DepositCollateral { mint, user_account: user, pool_config: opened };
            deposit_in_range(ctx, amount) ==> deposit_outcome(ctx, amount).0 is Ok
        }),
{
}

/// A granted withdrawal takes the amount from the pool's total, and the same shares
/// from the pool's shares and from the user's deposit.
pub proof fn law_withdraw_removes_equal_shares(
    ctx: WithdrawCollateral,
    amount: u64,
    shares_to_remove: u64,
)
    requires
        withdraw_in_range(ctx, amount, shares_to_remove),
    ensures
        ({
            let (r, after) = withdraw_outcome(ctx, amount, shares_to_remove);
            r is Ok ==> {
                &&& after.pool.total_deposits == ctx.pool.total_deposits - amount
                &&& after.pool.total_deposit_shares == ctx.pool.total_deposit_shares
                    - shares_to_remove
                &&& after.user_account.deposited_usdc == ctx.user_account.deposited_usdc
                    - shares_to_remove
            }
        }),
{
}

/// Depositing an amount into a pool that holds deposits and then withdrawing the same
/// amount is granted and brings the pool's total back; the user's deposit ends up changed
/// by the amount less the shares removed.
pub proof fn law_deposit_then_withdraw_restores_pool_total(
    ctx: DepositCollateral,
    amount: u64,
    shares_to_remove: u64,
)
    requires
        deposit_in_range(ctx, amount),
        ctx.pool_config.total_deposits != 0,
        deposit_mint_matches(ctx),
        ({
            let after = deposit_outcome(ctx, amount).1;
            withdraw_in_range(
                WithdrawCollateral {
                    mint: ctx.mint,
                    pool: after.pool_config,
                    user_account: after.user_account,
                },
                amount,
                shares_to_remove,
            )
        }),
    ensures
        ({
            let after = deposit_outcome(ctx, amount).1;
            let back = withdraw_outcome(
                WithdrawCollateral {
                    mint: ctx.mint,
                    pool: after.pool_config,
                    user_account: after.user_account,
                },
                amount,
                shares_to_remove,
            );
            &&& back.0 is Ok
            &&& back.1.pool.total_deposits == ctx.pool_config.total_deposits
            &&& back.1.user_account.deposited_usdc == ctx.user_account.deposited_usdc + amount
                - shares_to_remove
        }),
{
}

/// A granted borrow stays below the borrowable amount at the prices it read.
pub proof fn law_granted_borrow_within_limit(ctx: BorrowAsset, amount: u64, now: i64)
    ensures
        borrow_outcome(ctx, amount, now).0 is Ok ==> (borrow_prices(ctx, now) matches Ok(
            (sol, usdc),
        ) && amount < borrowable_amount(ctx.pool, ctx.user_account, sol, usdc)),
{
}

/// The first byte that a 66-byte feed text names is spelled by its third and fourth bytes.
proof fn lemma_first_feed_byte(text: Seq<u8>)
    requires
        text.len() == 66,
        feed_id_from_hex(text) is Ok,
    ensures
        hex_digit(text[2]) is Some,
        hex_digit(text[3]) is Some,
        feed_id_from_hex(text)->Ok_0[0] == hex_digit(text[2])->Some_0 * 16 + hex_digit(
            text[3],
        )->Some_0,
{
    let t = text.skip(2);
    assert(t[0] == text[2]);
    assert(t[1] == text[3]);
    assert(hex_decode(t) is Some);
}

/// Borrowing is never granted: both prices are read from the one price update, which
/// holds the price of one feed, and the SOL/USD and USDC/USD feed ids differ.
pub proof fn law_borrow_never_granted(ctx: BorrowAsset, amount: u64, now: i64)
    ensures
        borrow_outcome(ctx, amount, now).0 is Err,
{
    lemma_feed_id_texts();
    let sol_text = SOL_USD_FEED_ID.spec_bytes();
    let usdc_text = USDC_USD_FEED_ID.spec_bytes();
    if feed_id_from_hex(sol_text) is Ok && feed_id_from_hex(usdc_text) is Ok {
        lemma_first_feed_byte(sol_text);
        lemma_first_feed_byte(usdc_text);
        assert(feed_id_from_hex(sol_text)->Ok_0[0] == 0xef);
        assert(feed_id_from_hex(usdc_text)->Ok_0[0] == 0xea);
    }
}

/// A liquidation and a loan purchase on the same loan and oracle value agree: both
/// refuse for a missing oracle value, and both refuse for a margin that is not
/// exhausted, on exactly the same inputs.
pub proof fn law_liquidation_and_purchase_agree(
    user: UserAccount,
    deposit: UserDepositAccount,
    feed_value: Option<Dec>,
)
    requires
        absorb_loan_in_range(user, deposit, feed_value),
    ensures
        ({
            let purchase = absorb_loan_outcome(
                AbsorbLoan { user_account: user, user_deposit_account: deposit },
                feed_value,
            ).0;
            let liquidation = liquidate_outcome(user, feed_value);
            &&& (liquidation == Err::<u64, LendingProgramError>(
                LendingProgramError::MarginNotLargeEnough,
            )) <==> (purchase == Err::<
                AbsorbLoanTransfers,
                LendingProgramError,
            >(LendingProgramError::MarginNotLargeEnough))
            &&& feed_value is None ==> liquidation == Err::<u64, LendingProgramError>(
                LendingProgramError::InvalidSwitchboardAccount,
            ) && purchase == Err::<
                AbsorbLoanTransfers,
                LendingProgramError,
            >(LendingProgramError::InvalidSwitchboardAccount)
            &&& purchase is Ok ==> liquidation is Ok
        }),
{
}

/// A granted loan purchase resets what the user may borrow to half of the deposit left,
/// whatever it was before, and the liquidator pays the whole loan. Where the purchase
/// stays in range (where the program does not panic), the deposit shrinks by exactly the
/// collateral handed over.
pub proof fn law_purchase_halves_allowance(ctx: AbsorbLoan, feed_value: Option<Dec>)
    ensures
        ({
            let (r, after) = absorb_loan_outcome(ctx, feed_value);
            r matches Ok(transfers) ==> {
                &&& transfers.loan_amount == ctx.user_account.borrowed_amount_in_usdc
                &&& after.user_account.allowed_borrow_amount_in_usdc
                    == after.user_deposit_account.amount / 2
                &&& after.user_account.borrowed_amount_in_usdc
                    == ctx.user_account.borrowed_amount_in_usdc
                &&& absorb_loan_in_range(ctx.user_account, ctx.user_deposit_account, feed_value)
                    ==> {
                    &&& after.user_deposit_account.amount == ctx.user_deposit_account.amount
                        - transfers.loan_token_amount
                    &&& after.user_deposit_account.amount <= ctx.user_deposit_account.amount
                }
            }
        }),
{
}

/// Liquidation only grows more likely with the loan's value: where a loan value is at
/// least the allowance, so is any larger one.
pub proof fn law_larger_loan_value_keeps_liquidation(user: UserAccount, low: Dec, high: Dec)
    requires
        dec_ge(high, low),
    ensures
        dec_ge(low, dec_of_u64(user.allowed_borrow_amount_in_usdc)) ==> dec_ge(
            high,
            dec_of_u64(user.allowed_borrow_amount_in_usdc),
        ),
{
    let a = dec_of_u64(user.allowed_borrow_amount_in_usdc);
    lemma_dec_of_u64(user.allowed_borrow_amount_in_usdc);
    lemma_pow10_positive(low.scale as nat);
    lemma_pow10_positive(high.scale as nat);
    let t1 = pow10(low.scale as nat) as int;
    let t2 = pow10(high.scale as nat) as int;
    let n1 = low.numerator();
    let n2 = high.numerator();
    let na = user.allowed_borrow_amount_in_usdc as int;
    assert(pow10(0) == 1);
    if dec_ge(low, a) {
        assert(n2 >= na * t2) by (nonlinear_arith)
            requires
                t1 >= 1,
                t2 >= 1,
                n1 >= na * t1,
                n2 * t1 >= n1 * t2,
        {
            assert(n1 * t2 >= (na * t1) * t2);
            assert((n2 - na * t2) * t1 >= 0);
        }
    }
}

/// Lowering what a user may borrow never saves a loan from liquidation: where a
/// liquidation is not refused for the margin, it is not refused for it at a lower
/// allowance either, at the same oracle value.
pub proof fn law_lower_allowance_keeps_liquidation(
    user: UserAccount,
    lower_allowance: u64,
    feed_value: Option<Dec>,
)
    requires
        lower_allowance <= user.allowed_borrow_amount_in_usdc,
    ensures
        liquidate_outcome(user, feed_value) != Err::<u64, LendingProgramError>(
            LendingProgramError::MarginNotLargeEnough,
        ) ==> liquidate_outcome(
            UserAccount { allowed_borrow_amount_in_usdc: lower_allowance, ..user },
            feed_value,
        ) != Err::<u64, LendingProgramError>(LendingProgramError::MarginNotLargeEnough),
{
    if let Some(price) = feed_value {
        let lowered = UserAccount { allowed_borrow_amount_in_usdc: lower_allowance, ..user };
        let value = loan_value(user, price).unwrap();
        assert(loan_value(lowered, price).unwrap() == value);
        let a = user.allowed_borrow_amount_in_usdc;
        lemma_dec_of_u64(a);
        lemma_dec_of_u64(lower_allowance);
        lemma_pow10_positive(value.scale as nat);
        let t = pow10(value.scale as nat);
        assert(lower_allowance * t <= a * t) by (nonlinear_arith)
            requires
                lower_allowance <= a,
                t >= 1,
        ;
    }
}

/// A higher price never saves a loan from liquidation: where the borrowed amount times a
/// price reaches the allowance, it reaches it at any higher price too.
pub proof fn law_higher_price_keeps_reaching_allowance(user: UserAccount, low: Dec, high: Dec)
    requires
        dec_ge(high, low),
    ensures
        loan_reaches_allowance(user, low) ==> loan_reaches_allowance(user, high),
{
    let b = user.borrowed_amount_in_usdc as int;
    let a = user.allowed_borrow_amount_in_usdc as int;
    let n1 = low.numerator();
    let n2 = high.numerator();
    lemma_pow10_positive(low.scale as nat);
    lemma_pow10_positive(high.scale as nat);
    let t1 = pow10(low.scale as nat) as int;
    let t2 = pow10(high.scale as nat) as int;
    if loan_reaches_allowance(user, low) {
        assert(b * n2 >= a * t2) by (nonlinear_arith)
            requires
                b >= 0,
                a >= 0,
                t1 >= 1,
                t2 >= 1,
                b * n1 >= a * t1,
                n2 * t1 >= n1 * t2,
        {
            assert(b * (n2 * t1) >= b * (n1 * t2));
            assert((b * n1) * t2 >= (a * t1) * t2);
            assert((b * n2 - a * t2) * t1 >= 0);
        }
    }
}

/// Liquidation answers by the loan's value alone: with no oracle value it is refused as
/// an invalid feed; otherwise it is granted, for the whole borrowed amount, exactly when
/// the borrowed amount times the price (as `rust_decimal` multiplies them) is at least
/// the allowance, and refused for the margin otherwise.
pub proof fn law_liquidation_follows_loan_value(user: UserAccount, feed_value: Option<Dec>)
    ensures
        feed_value is None ==> liquidate_outcome(user, feed_value) == Err::<u64, LendingProgramError>(
            LendingProgramError::InvalidSwitchboardAccount,
        ),
        feed_value matches Some(price) ==> (decimal_product(
            dec_of_u64(user.borrowed_amount_in_usdc),
            price,
        ) matches Some(value) ==> {
            &&& dec_ge(value, dec_of_u64(user.allowed_borrow_amount_in_usdc)) ==> liquidate_outcome(
                user,
                feed_value,
            ) == Ok::<u64, LendingProgramError>(user.borrowed_amount_in_usdc)
            &&& !dec_ge(value, dec_of_u64(user.allowed_borrow_amount_in_usdc)) ==> liquidate_outcome(
                user,
                feed_value,
            ) == Err::<u64, LendingProgramError>(LendingProgramError::MarginNotLargeEnough)
        }),
{
}

/// A loan purchase whose margin is exhausted, and whose collateral the deposit covers, is
/// granted: the liquidator pays the whole loan and receives the integer part of the loan
/// value plus a twentieth of the borrowed amount, divided by the price (each step as
/// `rust_decimal` computes it); the deposit shrinks by those tokens and the user may then
/// borrow half of what is left. With the margin not exhausted it is refused and changes
/// nothing.
pub proof fn law_purchase_hands_over_collateral_with_reward(
    ctx: AbsorbLoan,
    price: Dec,
    value: Dec,
    total: Dec,
    tokens: Dec,
    taken: u64,
)
    requires
        decimal_product(dec_of_u64(ctx.user_account.borrowed_amount_in_usdc), price) == Some(value),
    ensures
        !dec_ge(value, dec_of_u64(ctx.user_account.allowed_borrow_amount_in_usdc))
            ==> absorb_loan_outcome(ctx, Some(price)) == (
            Err::<AbsorbLoanTransfers, LendingProgramError>(
                LendingProgramError::MarginNotLargeEnough,
            ),
            ctx,
        ),
        ({
            let borrowed = ctx.user_account.borrowed_amount_in_usdc;
            let deposit = ctx.user_deposit_account.amount;
            let (r, after) = absorb_loan_outcome(ctx, Some(price));
            dec_ge(value, dec_of_u64(ctx.user_account.allowed_borrow_amount_in_usdc))
                && decimal_sum(value, dec_of_u64((borrowed / 20) as u64)) == Some(total)
                && decimal_quotient(total, price) == Some(tokens) && dec_to_u64(tokens) == Some(
                taken,
            ) && taken <= deposit ==> {
                &&& r == Ok::<AbsorbLoanTransfers, LendingProgramError>(
                    AbsorbLoanTransfers { loan_amount: borrowed, loan_token_amount: taken },
                )
                &&& after.user_deposit_account.amount == deposit - taken
                &&& after.user_account.allowed_borrow_amount_in_usdc == (deposit - taken) / 2
                &&& after.user_account.borrowed_amount_in_usdc == borrowed
            }
        }),
{
}

/// A withdrawal is granted only of the pool's own mint and of no more than the user has
/// deposited: another mint is refused as unsupported, a larger amount for want of funds,
/// both with the accounts unchanged; any other withdrawal is granted.
pub proof fn law_withdrawal_bounded_by_deposit(
    ctx: WithdrawCollateral,
    amount: u64,
    shares_to_remove: u64,
)
    ensures
        ctx.mint@ != ctx.pool.mint_address@ ==> withdraw_outcome(ctx, amount, shares_to_remove) == (
            Err::<(), LendingProgramError>(LendingProgramError::UnsupportedMint),
            ctx,
        ),
        ctx.mint@ == ctx.pool.mint_address@ && amount > ctx.user_account.deposited_usdc
            ==> withdraw_outcome(ctx, amount, shares_to_remove) == (
            Err::<(), LendingProgramError>(LendingProgramError::NotEnoughFunds),
            ctx,
        ),
        ctx.mint@ == ctx.pool.mint_address@ && amount <= ctx.user_account.deposited_usdc
            ==> withdraw_outcome(ctx, amount, shares_to_remove).0 == Ok::<(), LendingProgramError>(()),
{
}

/// A feed's current result gives no value before its first result (slot zero); after it,
/// any value whose magnitude fits 96 bits is read as that many units of `10^-18`, and a
/// larger one is none.
pub proof fn law_feed_value_reads_eighteen_decimals(value: i128, slot: u64)
    ensures
        slot == 0 ==> current_result_value(value, slot) == Some(None::<Dec>),
        slot != 0 && -max_magnitude() <= value <= max_magnitude() ==> (current_result_value(
            value,
            slot,
        ) matches Some(Some(d)) && d.numerator() == value && d.scale == 18),
        slot != 0 && !(-max_magnitude() <= value <= max_magnitude()) ==> current_result_value(
            value,
            slot,
        ) is None,
{
    if slot != 0 && -max_magnitude() <= value <= max_magnitude() {
        let m: int = if value < 0 { -value } else { value as int };
        let d = current_result_value(value, slot)->Some_0->Some_0;
        assert(d.magnitude() == m) by {
            assert(m == (m / 0x1_0000_0000_0000_0000) * 0x1_0000_0000_0000_0000 + ((m / 0x1_0000_0000)
                % 0x1_0000_0000) * 0x1_0000_0000 + m % 0x1_0000_0000) by (nonlinear_arith)
                requires
                    m >= 0,
            ;
            assert(m / 0x1_0000_0000_0000_0000 < 0x1_0000_0000);
        }
    }
}

/// A deposit of another mint than the pool's is refused and changes nothing. A deposit of
/// the pool's mint into a pool that holds deposits adds the amount to the user's deposit
/// and to the pool's total, and the pool's shares times the whole number of times the
/// pool's total goes into the amount to the user's shares and to the pool's shares; into
/// an empty pool it adds the amount to the user's deposit and shares and makes the pool's
/// total and shares twice the amount. Nothing else changes. (Where a sum overflows, the
/// program panics.)
pub proof fn law_deposit_effects(ctx: DepositCollateral, amount: u64)
    ensures
        ctx.mint@ != ctx.pool_config.mint_address@ ==> deposit_outcome(ctx, amount) == (
            Err::<(), LendingProgramError>(LendingProgramError::UnsupportedMint),
            ctx,
        ),
        ({
            let (r, after) = deposit_outcome(ctx, amount);
            let user = ctx.user_account;
            let pool = ctx.pool_config;
            let shares = pool.total_deposit_shares * (amount / pool.total_deposits);
            ctx.mint@ == pool.mint_address@ && pool.total_deposits != 0 && user.deposited_usdc
                + amount <= u64::MAX && user.deposited_usdc_shares + shares <= u64::MAX
                && pool.total_deposits + amount <= u64::MAX && pool.total_deposit_shares + shares
                <= u64::MAX ==> {
                &&& r == Ok::<(), LendingProgramError>(())
                &&& after.user_account == (User {
                    deposited_usdc: (user.deposited_usdc + amount) as u64,
                    deposited_usdc_shares: (user.deposited_usdc_shares + shares) as u64,
                    ..user
                })
                &&& after.pool_config == (PoolConfig {
                    total_deposits: (pool.total_deposits + amount) as u64,
                    total_deposit_shares: (pool.total_deposit_shares + shares) as u64,
                    ..pool
                })
                &&& after.mint == ctx.mint
            }
        }),
        ({
            let (r, after) = deposit_outcome(ctx, amount);
            let user = ctx.user_account;
            let pool = ctx.pool_config;
            ctx.mint@ == pool.mint_address@ && pool.total_deposits == 0 && amount != 0
                && user.deposited_usdc + amount <= u64::MAX && user.deposited_usdc_shares + amount
                <= u64::MAX && 2 * amount <= u64::MAX ==> {
                &&& r == Ok::<(), LendingProgramError>(())
                &&& after.user_account == (User {
                    deposited_usdc: (user.deposited_usdc + amount) as u64,
                    deposited_usdc_shares: (user.deposited_usdc_shares + amount) as u64,
                    ..user
                })
                &&& after.pool_config == (PoolConfig {
                    total_deposits: (2 * amount) as u64,
                    total_deposit_shares: (2 * amount) as u64,
                    ..pool
                })
                &&& after.mint == ctx.mint
            }
        }),
{
    if ctx.mint@ == ctx.pool_config.mint_address@ && ctx.pool_config.total_deposits == 0 && amount
        != 0 {
        assert(amount / amount == 1) by (nonlinear_arith)
            requires
                amount != 0,
        ;
    }
}

/// A granted withdrawal of the pool's mint takes the amount from the pool's total, and
/// the shares removed from the pool's shares and from the user's deposit; nothing else
/// changes. (Where a difference would go below zero, the program panics.)
pub proof fn law_withdrawal_effects(ctx: WithdrawCollateral, amount: u64, shares_to_remove: u64)
    ensures
        ({
            let (r, after) = withdraw_outcome(ctx, amount, shares_to_remove);
            let user = ctx.user_account;
            let pool = ctx.pool;
            ctx.mint@ == pool.mint_address@ && amount <= user.deposited_usdc && shares_to_remove
                <= user.deposited_usdc && amount <= pool.total_deposits && shares_to_remove
                <= pool.total_deposit_shares ==> {
                &&& r == Ok::<(), LendingProgramError>(())
                &&& after.user_account == (User {
                    deposited_usdc: (user.deposited_usdc - shares_to_remove) as u64,
                    ..user
                })
                &&& after.pool == (PoolConfig {
                    total_deposits: (pool.total_deposits - amount) as u64,
                    total_deposit_shares: (pool.total_deposit_shares - shares_to_remove) as u64,
                    ..pool
                })
                &&& after.mint == ctx.mint
            }
        }),
{
}

/// Liquidation and loan purchase may be called wherever the program does not panic: a
/// liquidation wherever the price is a valid decimal and the loan value exists; a purchase
/// where, besides, a granted purchase's sum and quotient exist and the deposit covers the
/// tokens handed over. A withdrawal may be called wherever none of its differences goes
/// below zero.
pub proof fn law_calls_in_range_where_the_program_runs(
    ctx: AbsorbLoan,
    withdraw: WithdrawCollateral,
    amount: u64,
    shares_to_remove: u64,
    price: Dec,
    value: Dec,
    total: Dec,
    tokens: Dec,
)
    ensures
        price.scale <= 28 && decimal_product(dec_of_u64(ctx.user_account.borrowed_amount_in_usdc), price)
            is Some ==> liquidate_in_range(ctx.user_account, Some(price)),
        ({
            let borrowed = ctx.user_account.borrowed_amount_in_usdc;
            price.scale <= 28 && value.scale <= 28 && total.scale <= 28 && tokens.scale <= 28
                && decimal_product(dec_of_u64(borrowed), price) == Some(value) && (dec_ge(
                value,
                dec_of_u64(ctx.user_account.allowed_borrow_amount_in_usdc),
            ) ==> (decimal_sum(value, dec_of_u64((borrowed / 20) as u64)) == Some(total)
                && decimal_quotient(total, price) == Some(tokens) && (dec_to_u64(tokens) matches Some(
                t,
            ) ==> t <= ctx.user_deposit_account.amount))) ==> absorb_loan_in_range(
                ctx.user_account,
                ctx.user_deposit_account,
                Some(price),
            )
        }),
        liquidate_in_range(ctx.user_account, None),
        absorb_loan_in_range(ctx.user_account, ctx.user_deposit_account, None),
        shares_to_remove <= withdraw.user_account.deposited_usdc && amount
            <= withdraw.pool.total_deposits && shares_to_remove <= withdraw.pool.total_deposit_shares
            ==> withdraw_in_range(withdraw, amount, shares_to_remove),
{
}

} // verus!
