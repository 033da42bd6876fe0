//! A low-level library for building, encoding, and signing transactions
//! for the Stellar network: checksummed address handling, operation
//! construction, canonical XDR byte encoding, and envelope production.
pub mod account;
pub mod asset;
pub mod decimal;
pub mod get_liquidity_pool;
pub mod hashing;
pub mod keypair;
pub mod memo;
pub mod network;
pub mod op_list;
pub mod operation;
pub mod transaction;
pub mod transaction_builder;
pub mod utils;
pub mod xdr;
