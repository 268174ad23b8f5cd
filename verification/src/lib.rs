//! Escrow-backed lifecycle for two-party advertising campaigns.
//!
//! A sponsor funds a campaign vault at creation; a creator fulfills it; a
//! platform authority arbitrates. The escrowed funds are released in full to
//! exactly one party, depending on how the lifecycle concludes. The modules
//! below hold the lifecycle state machine, the campaign and vault records,
//! the fund-transfer arithmetic, the action entry points with their guards,
//! and the notification records each successful action produces.

pub mod actions;
pub mod campaign;
pub mod error;
pub mod events;
pub mod laws;
pub mod state;
pub mod vault;
