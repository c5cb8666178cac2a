//! Resolution of a two-party dice wager.
//!
//! The outcome of a wager is derived from a signature that the house
//! authority supplies after the bet was placed: the signature is checked
//! against a co-submitted, platform-verified signature record, hashed, and
//! reduced to a roll in [1, 100]. The settlement engine pays the player from
//! the escrow when the roll beats the bet's target and destroys the bet
//! record either way, so a bet settles exactly once.

pub mod engine;
pub mod errors;
pub mod fairness;
pub mod payout;
pub mod record;
pub mod sigcheck;
