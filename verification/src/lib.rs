//! Connect Four: the rules of the game as a verified engine.
//!
//! The board is seven columns of six rows. Row 0 is the top row and row 5
//! the bottom one, so a dropped mark comes to rest in the empty row with
//! the largest index.

pub mod cell;
pub mod board;
pub mod win;
pub mod layout;
pub mod game;
pub mod scene;
