//! A verified 3x3 board-game engine: move application, win and draw
//! detection, and a computer opponent driven by minimax search with
//! alpha-beta pruning.

pub mod board;
pub mod game;
pub mod search;

pub use board::Cell;
pub use game::ErrorKind;
pub use game::GameState;
pub use game::MoveResult;
