//! Signature sources that sign with Ethereum's personal-message scheme.

pub mod trezor;
