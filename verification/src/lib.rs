//! Watching a swap quote for price movement: reading the operator's input,
//! classifying one HTTP exchange, extracting the price from a JSON payload,
//! and the change-detection state machine that a polling loop drives.

pub mod api;
pub mod error;
pub mod input;
pub mod json;
pub mod json_text;
pub mod monitor;
