//! Verified core of a command-line client for smart thermostats.
//!
//! The library holds the decision logic: credential-store bookkeeping,
//! the token-refresh state machine, device-name resolution, and the
//! translation of user intents into device commands. All I/O (files,
//! network, the interactive consent flow) lives outside the library and
//! hands plain values in and out.

pub mod authflow;
pub mod client;
pub mod device;
pub mod errors;
pub mod paths;
pub mod store;
pub mod strutil;
pub mod temp;
pub mod translate;
