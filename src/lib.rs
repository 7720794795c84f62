//! An `eth_getAccountExt` query: an account's balance, nonce and code hash as
//! seen in the state of a given block, with absent accounts and empty code
//! brought to one canonical form.
pub mod account;
pub mod block;
pub mod error;
pub mod eth;
pub mod primitives;
pub mod provider;
