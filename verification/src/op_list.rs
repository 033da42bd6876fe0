//! One constructor per operation kind.
pub mod account_merge;
pub mod create_account;
pub mod payment;
