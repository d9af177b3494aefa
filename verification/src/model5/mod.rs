//! The fixed-quantity lottery: holders of SLOT tokens buy up to as many
//! fixed-quantity tickets as they hold SLOT, and a drawn ticket holder wins.
pub mod error;
pub mod state;
pub mod instruction;
pub mod processor;
