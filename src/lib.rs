//! A threshold-authorisation ledger for custodial payouts.
//!
//! An owner proposes payouts, a fixed set of signatories approves them, and
//! the owner finalises a payout once exactly the configured number of
//! approvals has been collected. Each payout is released at most once.
//!
//! Principals are identified by their address text; assets are a
//! denomination together with an integer amount.
pub mod access;
pub mod laws;
pub mod ledger;
pub mod query;
pub mod types;
