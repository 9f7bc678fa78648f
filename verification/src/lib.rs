//! A verified tic-tac-toe engine: a 3x3 game-state model with move
//! application and terminal-outcome detection, and a minimax search with
//! alpha-beta pruning that picks an engine move, breaking ties at random.

pub mod board;
pub mod minimax;
