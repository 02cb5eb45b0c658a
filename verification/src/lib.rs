//! The core of a desktop client for Amazon SQS and services that speak its
//! protocol: a session that holds the one configured client, the request that
//! each command sends, and the record that each reply becomes.
//!
//! Nothing here performs I/O. A command is started against the session, which
//! hands out the client and says what to send; the caller sends it and hands
//! the answer back to be finished into what the user sees.

pub mod commands;
pub mod error;
pub mod names;
pub mod records;
pub mod session;
