//! Rules engine of a falling-block puzzle game: a bit-packed playfield with
//! collision testing, placement and line clearing, piece geometry tables, a
//! weighted piece randomizer, and the game state machine that ties them
//! together. Terminal rendering and audio live outside this crate; the game
//! reports the cues they should perform as plain values.

pub mod clock;
pub mod field;
pub mod game;
pub mod geometry;
pub mod object;
pub mod rng;
pub mod tetromino;
