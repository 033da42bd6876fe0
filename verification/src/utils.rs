//! Helper modules around the core records.
pub mod decode_encode_muxed_account;
