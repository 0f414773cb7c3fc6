//! Autocomplete index for spreadsheet formula function names.
//!
//! The registry enumerates every built-in function's canonical upper-case
//! name once, in a fixed declaration order. The suggestion index is built
//! from the registry and answers prefix queries: it case-folds the typed
//! input and returns, in registry order, every name the input could
//! complete to.

pub mod registry;
pub mod suggester;
pub mod text;

pub use suggester::FunctionSuggester;
