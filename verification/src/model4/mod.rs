//! The lifetime lottery: holders of lifetime ticket tokens take part in
//! every draw, and a drawn holder wins the SOL prize pool.
pub mod error;
pub mod instruction;
pub mod processor;
