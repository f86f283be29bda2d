pub mod absorb_loan;
pub mod borrow_asset;
pub mod deposit_collateral;
pub mod init_user;
pub mod initialize_asset;
pub mod initialize_pool;
pub mod initialize_user;
pub mod liquidate;
pub mod stake_asset;
pub mod supply_collateral;
pub mod withdraw_collateral;
