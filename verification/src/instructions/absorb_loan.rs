use vstd::prelude::*;

use crate::decimal::{
    dec_ge, dec_of_u64, dec_to_u64, decimal_checked_add, decimal_checked_div, decimal_checked_mul,
    decimal_from_u64, decimal_ge, decimal_product, decimal_quotient, decimal_sum, decimal_to_u64,
    Dec,
};
use crate::error::LendingProgramError;
use crate::feed::{feed_value_of, pull_feed_account_len, pull_feed_discriminator, pull_feed_value};
use crate::state::user_account::UserAccount;
use crate::state::user_deposit_account::UserDepositAccount;

verus! {

/// What buying a loan reads and writes: the loan of the user and the user's deposit.
#[derive(Debug, Clone, Copy, PartialEq, Eq)]
pub struct AbsorbLoan {
    pub user_account: UserAccount,
    pub user_deposit_account: UserDepositAccount,
}

/// The two transfers of a loan that a liquidator buys: the liquidator pays
/// `loan_amount` to the pool, and the pool pays `loan_token_amount` of the collateral
/// token to the liquidator.
#[derive(Debug, Clone, Copy, PartialEq, Eq)]
pub struct AbsorbLoanTransfers {
    pub loan_amount: u64,
    pub loan_token_amount: u64,
}

/// The liquidator's reward, a twentieth of the loan, in USDC.
pub open spec fn liquidation_reward(user: UserAccount) -> u64 {
    (user.borrowed_amount_in_usdc / 20) as u64
}

/// The loan value at the oracle price.
pub open spec fn absorbed_value(user: UserAccount, price: Dec) -> Dec {
    decimal_product(dec_of_u64(user.borrowed_amount_in_usdc), price).unwrap()
}

/// The liquidator's collateral, given as a decimal, is a number of tokens that the
/// deposit covers (or none at all, where it is negative or too large for a `u64`).
pub open spec fn absorb_at_tokens_in_range(deposit: UserDepositAccount, tokens: Dec) -> bool {
    &&& tokens.wf()
    &&& dec_to_u64(tokens) matches Some(t) ==> t <= deposit.amount
}

/// What buying the loan answers, and the accounts after it, once the collateral that the
/// liquidator takes is known as a decimal number of tokens.
pub open spec fn absorb_at_tokens_outcome(ctx: AbsorbLoan, tokens: Dec) -> (
    Result<AbsorbLoanTransfers, LendingProgramError>,
    AbsorbLoan,
) {
    let user = ctx.user_account;
    match dec_to_u64(tokens) {
        None => (Err(LendingProgramError::InvalidSwitchboardAccount), ctx),
        Some(t) => {
            let new_deposit = (ctx.user_deposit_account.amount - t) as u64;
            (
                Ok(
                    AbsorbLoanTransfers {
                        loan_amount: user.borrowed_amount_in_usdc,
                        loan_token_amount: t,
                    },
                ),
                AbsorbLoan {
                    user_account: UserAccount {
                        allowed_borrow_amount_in_usdc: (new_deposit / 2) as u64,
                        ..user
                    },
                    user_deposit_account: UserDepositAccount { amount: new_deposit },
                },
            )
        },
    }
}

/// Dividing the loan value with the reward (`total`) by the price gives a decimal, and
/// the deposit covers the tokens it names.
pub open spec fn absorb_at_total_in_range(
    deposit: UserDepositAccount,
    price: Dec,
    total: Dec,
) -> bool {
    &&& price.wf()
    &&& total.wf()
    &&& decimal_quotient(total, price) matches Some(tokens) && absorb_at_tokens_in_range(
        deposit,
        tokens,
    )
}

/// What buying the loan answers, and the accounts after it, once the loan value with
/// the reward (`total`, in USDC) is known.
pub open spec fn absorb_at_total_outcome(ctx: AbsorbLoan, price: Dec, total: Dec) -> (
    Result<AbsorbLoanTransfers, LendingProgramError>,
    AbsorbLoan,
) {
    absorb_at_tokens_outcome(ctx, decimal_quotient(total, price).unwrap())
}

/// Given the loan value: where the margin is exhausted, adding the reward and dividing
/// by the price stay in range.
pub open spec fn absorb_at_value_in_range(
    user: UserAccount,
    deposit: UserDepositAccount,
    price: Dec,
    value: Dec,
) -> bool {
    &&& price.wf()
    &&& value.wf()
    &&& dec_ge(value, dec_of_u64(user.allowed_borrow_amount_in_usdc)) ==> (decimal_sum(
        value,
        dec_of_u64(liquidation_reward(user)),
    ) matches Some(total) && absorb_at_total_in_range(deposit, price, total))
}

/// What buying the loan answers, and the accounts after it, once the loan value (the
/// borrowed amount times the price, in USDC) is known: refused for the margin where the
/// value is below the allowed amount, else the value plus the reward, divided by the
/// price, is the collateral that the liquidator takes.
pub open spec fn absorb_at_value_outcome(ctx: AbsorbLoan, price: Dec, value: Dec) -> (
    Result<AbsorbLoanTransfers, LendingProgramError>,
    AbsorbLoan,
) {
    let user = ctx.user_account;
    if !dec_ge(value, dec_of_u64(user.allowed_borrow_amount_in_usdc)) {
        (Err(LendingProgramError::MarginNotLargeEnough), ctx)
    } else {
        absorb_at_total_outcome(
            ctx,
            price,
            decimal_sum(value, dec_of_u64(liquidation_reward(user))).unwrap(),
        )
    }
}

/// None of the decimal operations overflows or divides by zero, and the deposit
/// covers the tokens that the liquidator takes.
pub open spec fn absorb_loan_in_range(
    user: UserAccount,
    deposit: UserDepositAccount,
    feed_value: Option<Dec>,
) -> bool {
    feed_value matches Some(price) ==> {
        &&& price.wf()
        &&& decimal_product(dec_of_u64(user.borrowed_amount_in_usdc), price) matches Some(value)
            && absorb_at_value_in_range(user, deposit, price, value)
    }
}

/// What buying the loan answers, and the accounts after it.
pub open spec fn absorb_loan_outcome(ctx: AbsorbLoan, feed_value: Option<Dec>) -> (
    Result<AbsorbLoanTransfers, LendingProgramError>,
    AbsorbLoan,
) {
    match feed_value {
        None => (Err(LendingProgramError::InvalidSwitchboardAccount), ctx),
        Some(price) => absorb_at_value_outcome(ctx, price, absorbed_value(ctx.user_account, price)),
    }
}

/// A liquidator buys the loan of a user whose margin ran out, given the oracle's
/// value of the collateral token in USDC (`None` when the feed holds none). The
/// liquidator pays the loan and receives collateral worth the loan plus a twentieth of
/// it; the user's deposit shrinks by that collateral, and the user may then borrow
/// half of what is left. A refused request changes nothing.
pub fn absorb_loan(ctx: &mut AbsorbLoan, feed_value: Option<Dec>) -> (r: Result<
    AbsorbLoanTransfers,
    LendingProgramError,
>)
    requires
        absorb_loan_in_range(old(ctx).user_account, old(ctx).user_deposit_account, feed_value),
    ensures
        (r, *final(ctx)) == absorb_loan_outcome(*old(ctx), feed_value),
{
    let borrowed_amount = ctx.user_account.borrowed_amount_in_usdc;
    let token_price_in_usdc = match feed_value {
        None => return Err(LendingProgramError::InvalidSwitchboardAccount),
        Some(feed_value) => feed_value,
    };
    let borrowed_amount_decimal = match decimal_from_u64(borrowed_amount) {
        None => return Err(LendingProgramError::InvalidSwitchboardAccount),
        Some(converted) => converted,
    };
    let borrowed_amount_in_usdc = decimal_checked_mul(
        &borrowed_amount_decimal,
        &token_price_in_usdc,
    ).unwrap();
    absorb_loan_at_value(ctx, &token_price_in_usdc, &borrowed_amount_in_usdc)
}

/// Buys the loan given the price and the loan value in USDC (the borrowed amount times
/// the price): refused for the margin where the value is below the allowed amount; else
/// the liquidator's collateral is the value plus a twentieth of the borrowed amount,
/// divided by the price (see `absorb_loan_at_total`).
pub fn absorb_loan_at_value(ctx: &mut AbsorbLoan, price: &Dec, value: &Dec) -> (r: Result<
    AbsorbLoanTransfers,
    LendingProgramError,
>)
    requires
        absorb_at_value_in_range(
            old(ctx).user_account,
            old(ctx).user_deposit_account,
            *price,
            *value,
        ),
    ensures
        (r, *final(ctx)) == absorb_at_value_outcome(*old(ctx), *price, *value),
{
    let allowed_borrow_amount_in_usdc = match decimal_from_u64(
        ctx.user_account.allowed_borrow_amount_in_usdc,
    ) {
        None => return Err(LendingProgramError::InvalidSwitchboardAccount),
        Some(converted) => converted,
    };
    if !decimal_ge(value, &allowed_borrow_amount_in_usdc) {
        return Err(LendingProgramError::MarginNotLargeEnough);
    }
    let liquidation_reward = ctx.user_account.borrowed_amount_in_usdc / 20;
    let liquidation_reward_decimal = match decimal_from_u64(liquidation_reward) {
        None => return Err(LendingProgramError::InvalidSwitchboardAccount),
        Some(converted) => converted,
    };
    let with_reward = decimal_checked_add(value, &liquidation_reward_decimal).unwrap();
    absorb_loan_at_total(ctx, price, &with_reward)
}

/// Buys the loan given the price and the loan value plus the reward (`total`, in USDC):
/// the liquidator's collateral is `total` divided by the price (see
/// `absorb_loan_at_tokens`).
pub fn absorb_loan_at_total(ctx: &mut AbsorbLoan, price: &Dec, total: &Dec) -> (r: Result<
    AbsorbLoanTransfers,
    LendingProgramError,
>)
    requires
        absorb_at_total_in_range(old(ctx).user_deposit_account, *price, *total),
    ensures
        (r, *final(ctx)) == absorb_at_total_outcome(*old(ctx), *price, *total),
{
    let loan_token_amount_decimal = decimal_checked_div(total, price).unwrap();
    absorb_loan_at_tokens(ctx, &loan_token_amount_decimal)
}

/// Buys the loan given the collateral that the liquidator takes, as a decimal number of
/// tokens: refused where it is negative or too large for a `u64`; else its integer part
/// goes to the liquidator, the liquidator pays the whole loan, the user's deposit shrinks
/// by those tokens and the user may borrow half of what is left.
pub fn absorb_loan_at_tokens(ctx: &mut AbsorbLoan, tokens: &Dec) -> (r: Result<
    AbsorbLoanTransfers,
    LendingProgramError,
>)
    requires
        absorb_at_tokens_in_range(old(ctx).user_deposit_account, *tokens),
    ensures
        (r, *final(ctx)) == absorb_at_tokens_outcome(*old(ctx), *tokens),
{
    let loan_amount = ctx.user_account.borrowed_amount_in_usdc;
    let loan_token_amount = match decimal_to_u64(tokens) {
        None => return Err(LendingProgramError::InvalidSwitchboardAccount),
        Some(converted) => converted,
    };
    ctx.user_deposit_account.amount = ctx.user_deposit_account.amount - loan_token_amount;
    let new_deposit = ctx.user_deposit_account.amount;
    ctx.user_account.allowed_borrow_amount_in_usdc = new_deposit / 2;
    Ok(AbsorbLoanTransfers { loan_amount, loan_token_amount })
}

/// Tells whether `absorb_loan` stays in range for these accounts and oracle value.
pub fn absorb_loan_fits(ctx: &AbsorbLoan, feed_value: Option<Dec>) -> (r: bool)
    ensures
        r == absorb_loan_in_range(ctx.user_account, ctx.user_deposit_account, feed_value),
{
    let price = match feed_value {
        None => return true,
        Some(price) => price,
    };
    if price.scale > 28 {
        return false;
    }
    let borrowed = decimal_from_u64(ctx.user_account.borrowed_amount_in_usdc).unwrap();
    let value = match decimal_checked_mul(&borrowed, &price) {
        None => return false,
        Some(value) => value,
    };
    let allowed = decimal_from_u64(ctx.user_account.allowed_borrow_amount_in_usdc).unwrap();
    if !decimal_ge(&value, &allowed) {
        return true;
    }
    let reward = decimal_from_u64(ctx.user_account.borrowed_amount_in_usdc / 20).unwrap();
    let with_reward = match decimal_checked_add(&value, &reward) {
        None => return false,
        Some(sum) => sum,
    };
    let tokens = match decimal_checked_div(&with_reward, &price) {
        None => return false,
        Some(quotient) => quotient,
    };
    match decimal_to_u64(&tokens) {
        None => true,
        Some(t) => t <= ctx.user_deposit_account.amount,
    }
}

/// Buys the loan as `absorb_loan` does, on every input: `None`, with nothing
/// changed, where a decimal operation overflows or the deposit does not cover the
/// collateral taken (where `absorb_loan` may not be called).
pub fn checked_absorb_loan(ctx: &mut AbsorbLoan, feed_value: Option<Dec>) -> (r: Option<
    Result<AbsorbLoanTransfers, LendingProgramError>,
>)
    ensures
        r is None <==> !absorb_loan_in_range(
            old(ctx).user_account,
            old(ctx).user_deposit_account,
            feed_value,
        ),
        r is None ==> *final(ctx) == *old(ctx),
        r matches Some(outcome) ==> (outcome, *final(ctx)) == absorb_loan_outcome(
            *old(ctx),
            feed_value,
        ),
{
    if !absorb_loan_fits(ctx, feed_value) {
        return None;
    }
    Some(absorb_loan(ctx, feed_value))
}

/// Buys the loan as the program does: reads the oracle value from the Switchboard pull
/// feed account data, then proceeds as `absorb_loan` on that value. `None`, with nothing
/// changed, where the program panics: the account does not parse, its value does not fit
/// a decimal, a decimal operation overflows, or the deposit does not cover the collateral.
pub fn absorb_loan_with_feed(ctx: &mut AbsorbLoan, feed_data: &mut [u8]) -> (r: Option<
    Result<AbsorbLoanTransfers, LendingProgramError>,
>)
    ensures
        final(feed_data)@ == old(feed_data)@,
        r is None ==> *final(ctx) == *old(ctx),
        r is Some ==> old(feed_data)@.len() >= pull_feed_account_len() && old(
            feed_data,
        )@.subrange(0, 8) == pull_feed_discriminator(),
        r matches Some(outcome) ==> exists|little_endian: bool| #[trigger]
            feed_value_of(old(feed_data)@, little_endian) matches Some(feed_value)
                && absorb_loan_in_range(
                old(ctx).user_account,
                old(ctx).user_deposit_account,
                feed_value,
            ) && (outcome, *final(ctx)) == absorb_loan_outcome(*old(ctx), feed_value),
{
    let ghost bytes = feed_data@;
    match pull_feed_value(feed_data) {
        None => None,
        Some(feed_value) => {
            let r = checked_absorb_loan(ctx, feed_value);
            proof {
                if r is Some {
                    let le = choose|le: bool| #[trigger]
                        feed_value_of(bytes, le) == Some(feed_value);
                    assert(feed_value_of(bytes, le) matches Some(fv) && fv == feed_value);
                }
            }
            r
        },
    }
}

} // verus!
