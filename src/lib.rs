//! A streaming session client for a market-data and account-event feed:
//! outbound command encoding, inbound frame classification and decoding,
//! and the decisions of the session loop, all stated and proved with Verus.

pub mod command;
pub mod error;
pub mod events;
pub mod json;
pub mod laws;
pub mod session;
