//! User onboarding for the CraftNexus marketplace.
//!
//! The contract registers users under unique usernames, keeps their roles,
//! reputation and activity metrics, and verifies them by hand or by activity.
//!
//! - `contract` holds the entry points, `model` what each of them answers and does.
//! - `invocation` and `storage` hold what an entry point works on: the persistent
//!   entries, the time, the authorizations, and the effects on the host in order.
//! - `types` and `error` hold the records and the reasons for a refusal.
//! - `username` normalizes usernames, `host` does so for strings that the host holds.
//! - `calls` gathers the entry points into one transition, and `laws` says what
//!   holds of all of them and of sequences of them.

pub mod calls;
pub mod contract;
pub mod error;
pub mod host;
pub mod invocation;
pub mod laws;
pub mod model;
pub mod storage;
pub mod types;
pub mod username;
