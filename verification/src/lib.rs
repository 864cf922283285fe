//! A game state whose parts are read through marker types.
//!
//! A marker type names one projection of a [`GameState`]: `get::<Level>()` copies
//! the level out, `get::<Name>()` borrows the name. What a projection returns is
//! fixed by the marker alone: its type, and the part of the state that it reads.

pub mod access;
pub mod state;

pub use access::{Description, FromGameState, Level, Name};
pub use state::{Character, CharacterView, GameState, GameStateView};
