//! Validation core of a UTXO ledger, with an order-book exchange built on it.
//!
//! Outputs hold typed payloads and are owned by sr25519 keys. A transaction first
//! passes the structural checks of [`validator::PreValidator`] against a
//! [`store::UtxoSet`], then the constraint checker of its kind
//! ([`checker`]); [`dex`] provides the two checkers of the exchange.
pub mod checker;
pub mod codec;
pub mod dex;
pub mod ledger;
pub mod payload;
pub mod piece;
pub mod store;
pub mod validator;
pub mod wide;
