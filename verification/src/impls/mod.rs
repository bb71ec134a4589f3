//! The implementation that links an interface to its extension.

pub mod expand;

pub use expand::ImplExtTraitExpand;
