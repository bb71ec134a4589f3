//! What is checked and generated for an interface as a whole.

pub mod expand;
pub mod lint;

pub use expand::{ExtensionTraitExpand, PollTraitExpand};
pub use lint::AttributeLint;
