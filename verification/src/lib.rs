//! A cache of the names an account has carried over time.
//!
//! The crate holds the rules of the cache: when a stored answer is still
//! fresh, how a newly observed name is merged into the stored history, how
//! timestamps are written to and read from integer columns, and which
//! statements the store runs. Network and database traffic are left to the
//! caller, which performs the requests this crate asks for and reports what
//! came back.

pub mod client;
pub mod server;
pub mod storage;
pub mod utils;
