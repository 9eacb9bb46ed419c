//! Core state machine of an interactive chess board: selection, turn
//! enforcement, move application, and the bookkeeping (previous move,
//! castling rights) threaded through to an external move-generation engine.

pub mod engine;
pub mod game;
pub mod laws;
pub mod model;

use vstd::prelude::*;

verus! {

} // verus!
