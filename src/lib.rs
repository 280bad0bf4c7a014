//! Game engine of a two-display handheld: a start screen, a maze "travel"
//! mini-game and a pin-tumbler lock-picking mini-game, driven by ticks and
//! button events.

pub mod game;
pub mod gfx;
pub mod lock;
pub mod map;
pub mod random;
pub mod start;
pub mod travel;
