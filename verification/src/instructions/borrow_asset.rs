use vstd::prelude::*;

use crate::constants::{
    lemma_feed_id_texts, MAXIMUM_AGE, SOL_USD_FEED_ID, USDC_ADDRESS, USDC_USD_FEED_ID,
};
use crate::error::{InstructionError, LendingProgramError};
use crate::keys::{base58_text, pubkey_to_string, Pubkey};
use crate::oracle::{
    feed_id_from_hex, get_feed_id_from_hex, get_price_no_older_than, price_error_of_code,
    price_no_older_than, Price,
    PriceUpdateV2,
};
use crate::state::pool_config::PoolConfig;
use crate::state::user_account::User;
use vstd::string::StringSliceAdditionalSpecFns;

verus! {

/// What a borrow reads and writes: the mint of the borrowed token, its pool, the
/// borrower's account and the Pyth price update account.
#[derive(Debug, Clone, Copy, PartialEq, Eq)]
pub struct BorrowAsset {
    pub mint: Pubkey,
    pub pool: PoolConfig,
    pub user_account: User,
    pub price_update: PriceUpdateV2,
}

/// The value of the user's collateral at the two prices (each price taken as a `u64`).
pub open spec fn collateral_value(user: User, sol: Price, usdc: Price) -> int {
    (sol.price as u64) * user.deposited_sol + (usdc.price as u64) * user.deposited_usdc
}

/// The value of what the user borrowed at the two prices.
pub open spec fn borrowed_value(user: User, sol: Price, usdc: Price) -> int {
    (sol.price as u64) * user.borrowed_sol + (usdc.price as u64) * user.borrowed_usdc
}

/// What the user may borrow: the collateral value times the pool's maximum
/// loan-to-value factor, less what is borrowed already.
pub open spec fn borrowable_amount(pool: PoolConfig, user: User, sol: Price, usdc: Price) -> int {
    collateral_value(user, sol, usdc) * pool.max_ltv - borrowed_value(user, sol, usdc)
}

/// What the user may borrow without nearing liquidation: the collateral value times the
/// liquidation threshold, less what is borrowed already.
pub open spec fn safe_borrowable_amount(pool: PoolConfig, user: User, sol: Price, usdc: Price) -> int {
    collateral_value(user, sol, usdc) * pool.liquidation_threshold - borrowed_value(user, sol, usdc)
}

/// The borrow shares that `amount` is worth: the pool's shares times the whole number
/// of times the pool's borrowed total goes into `amount`.
pub open spec fn borrow_shares(pool: PoolConfig, amount: u64) -> int {
    pool.total_borrowed_shares * (amount / pool.total_borrowed)
}

/// The mint is the USDC mint, compared by its base58 text.
pub open spec fn is_usdc_mint(mint: Pubkey) -> bool {
    base58_text(mint@) == USDC_ADDRESS@
}

/// Every `u64` operation of a borrow stays in range, at the given prices.
pub open spec fn borrow_arithmetic_in_range(
    ctx: BorrowAsset,
    amount: u64,
    sol: Price,
    usdc: Price,
) -> bool {
    let user = ctx.user_account;
    let pool = ctx.pool;
    let collateral = collateral_value(user, sol, usdc);
    let borrowed = borrowed_value(user, sol, usdc);
    let shares = borrow_shares(pool, amount);
    &&& (sol.price as u64) * user.deposited_sol <= u64::MAX
    &&& (usdc.price as u64) * user.deposited_usdc <= u64::MAX
    &&& collateral <= u64::MAX
    &&& (sol.price as u64) * user.borrowed_sol <= u64::MAX
    &&& (usdc.price as u64) * user.borrowed_usdc <= u64::MAX
    &&& borrowed <= u64::MAX
    &&& collateral * pool.max_ltv <= u64::MAX
    &&& borrowable_amount(pool, user, sol, usdc) >= 0
    &&& borrowable_amount(pool, user, sol, usdc) > amount ==> {
        &&& collateral * pool.liquidation_threshold <= u64::MAX
        &&& safe_borrowable_amount(pool, user, sol, usdc) >= 0
        &&& pool.total_borrowed != 0
        &&& shares <= u64::MAX
        &&& pool.total_borrowed + amount <= u64::MAX
        &&& pool.total_borrowed_shares + shares <= u64::MAX
        &&& is_usdc_mint(ctx.mint) ==> user.borrowed_usdc + amount <= u64::MAX
            && user.deposited_usdc_shares + shares <= u64::MAX
        &&& !is_usdc_mint(ctx.mint) ==> user.borrowed_sol + amount <= u64::MAX
            && user.deposited_sol_shares + shares <= u64::MAX
    }
}

/// The two prices that a borrow reads from the one price update, or the first error.
pub open spec fn borrow_prices(ctx: BorrowAsset, now: i64) -> Result<(Price, Price), InstructionError> {
    match feed_id_from_hex(SOL_USD_FEED_ID.spec_bytes()) {
        Err(e) => Err(InstructionError::Price(e)),
        Ok(sol_id) => match feed_id_from_hex(USDC_USD_FEED_ID.spec_bytes()) {
            Err(e) => Err(InstructionError::Price(e)),
            Ok(usdc_id) => match price_no_older_than(ctx.price_update, now, MAXIMUM_AGE, sol_id) {
                Err(e) => Err(InstructionError::Price(e)),
                Ok(sol) => match price_no_older_than(
                    ctx.price_update,
                    now,
                    MAXIMUM_AGE,
                    usdc_id,
                ) {
                    Err(e) => Err(InstructionError::Price(e)),
                    Ok(usdc) => Ok((sol, usdc)),
                },
            },
        },
    }
}

/// The arithmetic of a borrow stays in range wherever it is reached.
pub open spec fn borrow_in_range(ctx: BorrowAsset, amount: u64, now: i64) -> bool {
    borrow_prices(ctx, now) matches Ok((sol, usdc)) ==> borrow_arithmetic_in_range(
        ctx,
        amount,
        sol,
        usdc,
    )
}

/// The accounts after a granted borrow: the pool's borrowed total and shares grow by
/// the amount and its shares, and so do the user's borrowed amount and shares of the
/// borrowed token (USDC if the mint is the USDC mint, else SOL).
pub open spec fn borrowed_accounts(ctx: BorrowAsset, amount: u64) -> BorrowAsset {
    let shares = borrow_shares(ctx.pool, amount);
    let user = ctx.user_account;
    BorrowAsset {
        pool: PoolConfig {
            total_borrowed: (ctx.pool.total_borrowed + amount) as u64,
            total_borrowed_shares: (ctx.pool.total_borrowed_shares + shares) as u64,
            ..ctx.pool
        },
        user_account: if is_usdc_mint(ctx.mint) {
            User {
                borrowed_usdc: (user.borrowed_usdc + amount) as u64,
                deposited_usdc_shares: (user.deposited_usdc_shares + shares) as u64,
                ..user
            }
        } else {
            User {
                borrowed_sol: (user.borrowed_sol + amount) as u64,
                deposited_sol_shares: (user.deposited_sol_shares + shares) as u64,
                ..user
            }
        },
        ..ctx
    }
}

/// What a borrow answers, and the accounts after it. A granted borrow answers whether
/// the amount goes beyond the safe borrowable amount (a warning, not a refusal).
pub open spec fn borrow_outcome(ctx: BorrowAsset, amount: u64, now: i64) -> (
    Result<bool, InstructionError>,
    BorrowAsset,
) {
    match borrow_prices(ctx, now) {
        Err(e) => (Err(e), ctx),
        Ok((sol, usdc)) => if borrowable_amount(ctx.pool, ctx.user_account, sol, usdc) > amount {
            (
                Ok(safe_borrowable_amount(ctx.pool, ctx.user_account, sol, usdc) < amount),
                borrowed_accounts(ctx, amount),
            )
        } else {
            (Err(InstructionError::Lending(LendingProgramError::OverBorrowableAmount)), ctx)
        },
    }
}

/// The feed id constants are ASCII texts, so their bytes can be cut anywhere.
proof fn lemma_feed_texts_cuttable()
    ensures
        crate::oracle::feed_text_cuttable(SOL_USD_FEED_ID.spec_bytes()),
        crate::oracle::feed_text_cuttable(USDC_USD_FEED_ID.spec_bytes()),
{
    lemma_feed_id_texts();
}

/// Whether the mint is the USDC mint: its base58 text is `USDC_ADDRESS`.
pub fn mint_is_usdc(mint: &Pubkey) -> (r: bool)
    ensures
        r == is_usdc_mint(*mint),
{
    let mint_address = pubkey_to_string(mint);
    mint_address == USDC_ADDRESS.to_string()
}

/// Tells whether the `u64` operations of a borrow stay in range at the given prices.
fn borrow_arithmetic_fits(ctx: &BorrowAsset, amount: u64, sol_price: &Price, usdc_price: &Price) -> (r:
    bool)
    ensures
        r == borrow_arithmetic_in_range(*ctx, amount, *sol_price, *usdc_price),
{
    let sol = sol_price.price as u64;
    let usdc = usdc_price.price as u64;
    let user = &ctx.user_account;
    let pool = &ctx.pool;
    let sol_deposit = match sol.checked_mul(user.deposited_sol) {
        None => return false,
        Some(v) => v,
    };
    let usdc_deposit = match usdc.checked_mul(user.deposited_usdc) {
        None => return false,
        Some(v) => v,
    };
    let total_collateral = match sol_deposit.checked_add(usdc_deposit) {
        None => return false,
        Some(v) => v,
    };
    let sol_borrowed = match sol.checked_mul(user.borrowed_sol) {
        None => return false,
        Some(v) => v,
    };
    let usdc_borrowed = match usdc.checked_mul(user.borrowed_usdc) {
        None => return false,
        Some(v) => v,
    };
    let total_borrowed = match sol_borrowed.checked_add(usdc_borrowed) {
        None => return false,
        Some(v) => v,
    };
    let limit = match total_collateral.checked_mul(pool.max_ltv) {
        None => return false,
        Some(v) => v,
    };
    if limit < total_borrowed {
        return false;
    }
    if !(limit - total_borrowed > amount) {
        return true;
    }
    let safe_limit = match total_collateral.checked_mul(pool.liquidation_threshold) {
        None => return false,
        Some(v) => v,
    };
    if safe_limit < total_borrowed || pool.total_borrowed == 0 {
        return false;
    }
    let shares = match pool.total_borrowed_shares.checked_mul(amount / pool.total_borrowed) {
        None => return false,
        Some(v) => v,
    };
    if pool.total_borrowed.checked_add(amount).is_none()
        || pool.total_borrowed_shares.checked_add(shares).is_none() {
        return false;
    }
    if mint_is_usdc(&ctx.mint) {
        user.borrowed_usdc.checked_add(amount).is_some()
            && user.deposited_usdc_shares.checked_add(shares).is_some()
    } else {
        user.borrowed_sol.checked_add(amount).is_some()
            && user.deposited_sol_shares.checked_add(shares).is_some()
    }
}

/// Tells whether `borrow_asset` stays in range for these accounts, amount and time.
pub fn borrow_fits(ctx: &BorrowAsset, amount: u64, now: i64) -> (r: bool)
    ensures
        r == borrow_in_range(*ctx, amount, now),
{
    proof {
        lemma_feed_texts_cuttable();
    }
    let sol_feed_id = match get_feed_id_from_hex(SOL_USD_FEED_ID) {
        Ok(id) => id,
        Err(_) => return true,
    };
    let usdc_feed_id = match get_feed_id_from_hex(USDC_USD_FEED_ID) {
        Ok(id) => id,
        Err(_) => return true,
    };
    let sol_price = match get_price_no_older_than(&ctx.price_update, now, MAXIMUM_AGE, &sol_feed_id) {
        Ok(price) => price,
        Err(_) => return true,
    };
    let usdc_price = match get_price_no_older_than(
        &ctx.price_update,
        now,
        MAXIMUM_AGE,
        &usdc_feed_id,
    ) {
        Ok(price) => price,
        Err(_) => return true,
    };
    borrow_arithmetic_fits(ctx, amount, &sol_price, &usdc_price)
}

impl BorrowAsset {
    /// Lends `amount` of the pool's token to the user, priced by the Pyth SOL/USD and
    /// USDC/USD feeds read from the one price update at time `now`. The borrow is
    /// refused unless the collateral value times the maximum loan-to-value factor, less
    /// what is borrowed, exceeds the amount. A refused borrow changes nothing; a granted
    /// one answers whether it goes beyond the safe borrowable amount.
    pub fn borrow_asset(&mut self, amount: u64, now: i64) -> (r: Result<bool, InstructionError>)
        requires
            borrow_in_range(*old(self), amount, now),
        ensures
            (r, *final(self)) == borrow_outcome(*old(self), amount, now),
    {
        proof {
            lemma_feed_texts_cuttable();
        }
        let sol_feed_id = match get_feed_id_from_hex(SOL_USD_FEED_ID) {
            Ok(id) => id,
            Err(code) => return Err(InstructionError::Price(price_error_of_code(code))),
        };
        let usdc_feed_id = match get_feed_id_from_hex(USDC_USD_FEED_ID) {
            Ok(id) => id,
            Err(code) => return Err(InstructionError::Price(price_error_of_code(code))),
        };
        let sol_price = match get_price_no_older_than(
            &self.price_update,
            now,
            MAXIMUM_AGE,
            &sol_feed_id,
        ) {
            Ok(price) => price,
            Err(code) => return Err(InstructionError::Price(price_error_of_code(code))),
        };
        let usdc_price = match get_price_no_older_than(
            &self.price_update,
            now,
            MAXIMUM_AGE,
            &usdc_feed_id,
        ) {
            Ok(price) => price,
            Err(code) => return Err(InstructionError::Price(price_error_of_code(code))),
        };
        let sol = sol_price.price as u64;
        let usdc = usdc_price.price as u64;
        let user = self.user_account;
        let total_collateral = (sol * user.deposited_sol) + (usdc * user.deposited_usdc);
        let total_borrowed = (sol * user.borrowed_sol) + (usdc * user.borrowed_usdc);
        let borrowable_amount = (total_collateral * self.pool.max_ltv) - total_borrowed;
        if !(borrowable_amount > amount) {
            return Err(InstructionError::Lending(LendingProgramError::OverBorrowableAmount));
        }
        let safe_borrowable_amount = (total_collateral * self.pool.liquidation_threshold)
            - total_borrowed;
        let above_safe_amount = safe_borrowable_amount < amount;
        let borrow_ratio = amount.checked_div(self.pool.total_borrowed).unwrap();
        let users_shares = self.pool.total_borrowed_shares.checked_mul(borrow_ratio).unwrap();
        self.pool.total_borrowed = self.pool.total_borrowed + amount;
        self.pool.total_borrowed_shares = self.pool.total_borrowed_shares + users_shares;
        if mint_is_usdc(&self.mint) {
            self.user_account.borrowed_usdc = self.user_account.borrowed_usdc + amount;
            self.user_account.deposited_usdc_shares = self.user_account.deposited_usdc_shares
                + users_shares;
        } else {
            self.user_account.borrowed_sol = self.user_account.borrowed_sol + amount;
            self.user_account.deposited_sol_shares = self.user_account.deposited_sol_shares
                + users_shares;
        }
        Ok(above_safe_amount)
    }
}

/// Borrows as `BorrowAsset::borrow_asset` does, on every input: `None`, with nothing
/// changed, where an integer operation of the borrow would overflow or divide by zero
/// (where `borrow_asset` may not be called).
pub fn checked_borrow_asset(ctx: &mut BorrowAsset, amount: u64, now: i64) -> (r: Option<
    Result<bool, InstructionError>,
>)
    ensures
        r is None <==> !borrow_in_range(*old(ctx), amount, now),
        r is None ==> *final(ctx) == *old(ctx),
        r matches Some(outcome) ==> (outcome, *final(ctx)) == borrow_outcome(
            *old(ctx),
            amount,
            now,
        ),
{
    if !borrow_fits(ctx, amount, now) {
        return None;
    }
    Some(ctx.borrow_asset(amount, now))
}

} // verus!
