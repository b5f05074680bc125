//! A game-independent position/transition abstraction for tree search, with
//! a chess adapter whose rules come from the `chess` crate.

pub mod board;
pub mod laws;
pub mod rules;
pub mod state;
