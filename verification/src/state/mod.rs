pub mod pool_config;
pub mod user_account;
pub mod user_deposit_account;
