//! A deterministic governance state machine in the Moloch style: members
//! submit funding proposals backed by a locked deposit, vote on them during a
//! bounded logical-time window, and proposals are finalized strictly in
//! submission order, minting governance shares to successful applicants.
//!
//! The crate is a pure library: logical time is handed in by the caller, the
//! calling account is taken on trust from the host, and notifications are
//! returned through an event log rather than sent anywhere. Accounts, times
//! and share amounts are plain `u64` values; proposal indices are `u32`;
//! ballots are `u8`, with 0 standing for yes and 1 for no.

pub mod engine;
pub mod errors;
pub mod events;
pub mod ledger;
pub mod queue;
pub mod registry;
