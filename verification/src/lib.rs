//! Exact fixed-point slippage arithmetic and a two-phase search for the
//! input amount that realizes a target execution slippage.
//!
//! The crate has three layers: an exact ratio type compared by checked
//! cross-multiplication (`ratio`), a slippage evaluator built on it
//! (`evaluator`), and a bracket-then-bisect searcher that drives an
//! oracle capability to the input amount whose realized slippage meets a
//! target within a tolerance (`search`, `oracle`).

pub mod evaluator;
pub mod oracle;
pub mod ratio;
pub mod search;
