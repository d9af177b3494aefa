//! The pooled lottery: users stake SOL for pool tokens, and the staking
//! rewards make the prize that a drawn winner takes.
pub mod error;
pub mod state;
pub mod instruction;
pub mod processor;
