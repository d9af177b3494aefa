//! The launchpad lottery: users stake a partner project's token for pool
//! tokens, and a drawn participant wins the prize pool that the project gives.
pub mod error;
pub mod instruction;
pub mod processor;
