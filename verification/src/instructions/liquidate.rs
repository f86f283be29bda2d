use vstd::prelude::*;

use crate::decimal::{
    dec_ge, dec_of_u64, dec_zero, decimal_checked_mul, decimal_from_u64, decimal_ge,
    decimal_product, exact_product, lemma_dec_of_u64, lemma_exact_product, lemma_pow10_positive,
    pow10, product_is_exact, Dec,
};
use crate::error::LendingProgramError;
use crate::feed::{feed_value_of, pull_feed_account_len, pull_feed_discriminator, pull_feed_value};
use crate::state::user_account::UserAccount;

verus! {

/// What a liquidation reads: the loan of the user.
#[derive(Debug, Clone, Copy, PartialEq, Eq)]
pub struct LiquidateUser {
    pub user_account: UserAccount,
}

/// The value of the user's loan at the oracle price: the borrowed amount times the price.
pub open spec fn loan_value(user: UserAccount, price: Dec) -> Option<Dec> {
    decimal_product(dec_of_u64(user.borrowed_amount_in_usdc), price)
}

/// The loan value is computed without rounding: a factor is zero, or the product fits.
pub open spec fn loan_value_exact(user: UserAccount, price: Dec) -> bool {
    ||| user.borrowed_amount_in_usdc == 0
    ||| price.magnitude() == 0
    ||| product_is_exact(dec_of_u64(user.borrowed_amount_in_usdc), price)
}

/// The borrowed amount times the price is at least the allowed amount, as numbers.
pub open spec fn loan_reaches_allowance(user: UserAccount, price: Dec) -> bool {
    user.borrowed_amount_in_usdc * price.numerator() >= user.allowed_borrow_amount_in_usdc * pow10(
        price.scale as nat,
    )
}

/// The loan is worth at least what the user was allowed to borrow.
pub open spec fn margin_exhausted(user: UserAccount, price: Dec) -> bool {
    dec_ge(loan_value(user, price).unwrap(), dec_of_u64(user.allowed_borrow_amount_in_usdc))
}

/// The computation of the loan value does not overflow, given the oracle value.
pub open spec fn liquidate_in_range(user: UserAccount, feed_value: Option<Dec>) -> bool {
    feed_value matches Some(price) ==> price.wf() && loan_value(user, price) is Some
}

/// What a liquidation answers: the amount to send from the pool to the user, or why not.
pub open spec fn liquidate_outcome(user: UserAccount, feed_value: Option<Dec>) -> Result<
    u64,
    LendingProgramError,
> {
    match feed_value {
        None => Err(LendingProgramError::InvalidSwitchboardAccount),
        Some(price) => if margin_exhausted(user, price) {
            Ok(user.borrowed_amount_in_usdc)
        } else {
            Err(LendingProgramError::MarginNotLargeEnough)
        },
    }
}

/// Where the loan value is exact, comparing it with the allowance compares numbers.
proof fn lemma_exact_margin(user: UserAccount, price: Dec, value: Dec)
    requires
        price.wf(),
        user.borrowed_amount_in_usdc == 0 || price.magnitude() == 0 ==> value == dec_zero(),
        product_is_exact(dec_of_u64(user.borrowed_amount_in_usdc), price) ==> value
            == exact_product(dec_of_u64(user.borrowed_amount_in_usdc), price),
    ensures
        loan_value_exact(user, price) ==> (dec_ge(
            value,
            dec_of_u64(user.allowed_borrow_amount_in_usdc),
        ) <==> loan_reaches_allowance(user, price)),
{
    let b = user.borrowed_amount_in_usdc;
    let a = user.allowed_borrow_amount_in_usdc;
    lemma_dec_of_u64(b);
    lemma_dec_of_u64(a);
    lemma_pow10_positive(price.scale as nat);
    let s = pow10(price.scale as nat);
    assert(pow10(0) == 1);
    if b == 0 || price.magnitude() == 0 {
        assert(b * price.numerator() == 0) by (nonlinear_arith)
            requires
                b == 0 || price.numerator() == 0,
        ;
        assert(a * s <= 0 <==> a == 0) by (nonlinear_arith)
            requires
                s >= 1,
                a >= 0,
        ;
        assert(value.numerator() == 0);
        assert(value.scale == 0 && dec_of_u64(a).scale == 0);
        assert(dec_ge(value, dec_of_u64(a)) == (0 * pow10(0) >= a * pow10(0)));
        assert(dec_ge(value, dec_of_u64(a)) <==> 0 >= a);
    } else if product_is_exact(dec_of_u64(b), price) {
        lemma_exact_product(dec_of_u64(b), price);
        assert(value.numerator() == b * price.numerator());
        assert(value.scale == price.scale);
        assert(value.numerator() * pow10(0) == value.numerator());
        assert(dec_ge(value, dec_of_u64(a)) <==> value.numerator() >= a * s);
    }
}

/// Decides a liquidation from the oracle's value of the token in USDC (`None` when
/// the feed holds none). On success the result is the amount that the pool sends to
/// the user's token account: the whole borrowed amount.
pub fn liquidate(ctx: &LiquidateUser, feed_value: Option<Dec>) -> (r: Result<u64, LendingProgramError>)
    requires
        liquidate_in_range(ctx.user_account, feed_value),
    ensures
        r == liquidate_outcome(ctx.user_account, feed_value),
        feed_value matches Some(price) ==> (loan_value_exact(ctx.user_account, price) ==> (r is Ok
            <==> loan_reaches_allowance(ctx.user_account, price))),
{
    let borrowed_amount = ctx.user_account.borrowed_amount_in_usdc;
    let token_price_in_usdc = match feed_value {
        None => return Err(LendingProgramError::InvalidSwitchboardAccount),
        Some(feed_value) => feed_value,
    };
    let borrowed_amount_decimal = match decimal_from_u64(borrowed_amount) {
        None => return Err(LendingProgramError::InvalidSwitchboardAccount),
        Some(converted) => converted,
    };
    let borrowed_amount_in_usdc = decimal_checked_mul(
        &borrowed_amount_decimal,
        &token_price_in_usdc,
    ).unwrap();
    proof {
        lemma_exact_margin(ctx.user_account, token_price_in_usdc, borrowed_amount_in_usdc);
    }
    liquidate_at_loan_value(ctx, &borrowed_amount_in_usdc)
}

/// Decides a liquidation given the loan's value in USDC (the borrowed amount times the
/// price): granted, for the whole borrowed amount, when the value is at least the
/// allowed amount; refused for the margin otherwise.
pub fn liquidate_at_loan_value(ctx: &LiquidateUser, loan_value: &Dec) -> (r: Result<
    u64,
    LendingProgramError,
>)
    requires
        loan_value.wf(),
    ensures
        r == (if dec_ge(*loan_value, dec_of_u64(ctx.user_account.allowed_borrow_amount_in_usdc)) {
            Ok::<u64, LendingProgramError>(ctx.user_account.borrowed_amount_in_usdc)
        } else {
            Err::<u64, LendingProgramError>(LendingProgramError::MarginNotLargeEnough)
        }),
{
    let allowed_borrow_amount_in_usdc = match decimal_from_u64(
        ctx.user_account.allowed_borrow_amount_in_usdc,
    ) {
        None => return Err(LendingProgramError::InvalidSwitchboardAccount),
        Some(converted) => converted,
    };
    if !decimal_ge(loan_value, &allowed_borrow_amount_in_usdc) {
        return Err(LendingProgramError::MarginNotLargeEnough);
    }
    Ok(ctx.user_account.borrowed_amount_in_usdc)
}

/// Decides a liquidation as `liquidate` does, on every input: `None` where the loan
/// value overflows a decimal (where `liquidate` may not be called).
pub fn checked_liquidate(ctx: &LiquidateUser, feed_value: Option<Dec>) -> (r: Option<
    Result<u64, LendingProgramError>,
>)
    ensures
        r is None <==> !liquidate_in_range(ctx.user_account, feed_value),
        r matches Some(outcome) ==> outcome == liquidate_outcome(ctx.user_account, feed_value),
{
    if let Some(price) = feed_value {
        if price.scale > 28 {
            return None;
        }
        let borrowed = decimal_from_u64(ctx.user_account.borrowed_amount_in_usdc).unwrap();
        if decimal_checked_mul(&borrowed, &price).is_none() {
            return None;
        }
    }
    Some(liquidate(ctx, feed_value))
}

/// Liquidates as the program does: reads the oracle value from the Switchboard pull feed
/// account data, then decides as `liquidate` on that value. `None` where the program
/// panics: the account does not parse, its value does not fit a decimal, or the loan value
/// overflows a decimal.
pub fn liquidate_with_feed(ctx: &LiquidateUser, feed_data: &mut [u8]) -> (r: Option<
    Result<u64, LendingProgramError>,
>)
    ensures
        final(feed_data)@ == old(feed_data)@,
        r is Some ==> old(feed_data)@.len() >= pull_feed_account_len() && old(
            feed_data,
        )@.subrange(0, 8) == pull_feed_discriminator(),
        r matches Some(outcome) ==> exists|little_endian: bool| #[trigger]
            feed_value_of(old(feed_data)@, little_endian) matches Some(feed_value)
                && liquidate_in_range(ctx.user_account, feed_value) && outcome
                == liquidate_outcome(ctx.user_account, feed_value),
{
    let ghost bytes = feed_data@;
    match pull_feed_value(feed_data) {
        None => None,
        Some(feed_value) => {
            let r = checked_liquidate(ctx, feed_value);
            proof {
                if r is Some {
                    let le = choose|le: bool| #[trigger]
                        feed_value_of(bytes, le) == Some(feed_value);
                    assert(feed_value_of(bytes, le) matches Some(fv) && fv == feed_value);
                }
            }
            r
        },
    }
}

} // verus!
