//! Economic settlement engine for a creation-and-curation market.
//!
//! Participants propose ideas, an oracle supplies candidate image variants,
//! participants stake theme tokens to vote among the variants (quadratic
//! weighting), and the protocol settles the vote by distributing the stake
//! pool to winners, curator, platform, and a buyback pool.  A coupled
//! constant-product bonding-curve market mints, buys, sells, and burns the
//! per-theme tokens that are staked.
//!
//! The library holds the arithmetic kernel, the idea lifecycle and voting
//! state machine, the settlement engine, the withdrawal resolver, and the
//! token market.  Custody transfers, clocks, persistent storage, and event
//! transport are collaborators: every function takes the data it reads from
//! them (the current time, account identities, balances) as plain values and
//! returns the amounts to be moved.

pub mod config;
pub mod errors;
pub mod events;
pub mod idea;
pub mod math;
pub mod settlement;
pub mod theme;
