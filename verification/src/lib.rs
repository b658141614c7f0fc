//! A verified core for a bundle-submission flow: configuration loading,
//! signer assembly, construction of a two-transaction payment bundle, and a
//! bounded per-block retry policy. Network transport and the asynchronous
//! runtime live outside this crate; the decisions they act on are verified
//! here.
pub mod config;
pub mod signer;
pub mod tx;
pub mod bundle;
pub mod retry;
