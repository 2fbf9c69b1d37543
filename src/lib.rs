//! A grid snake game: the state of one game and the rule that moves it on by
//! one tick, the decisions of the loop that runs it, and the arithmetic that
//! places its cells on screen; beside it, a sprite that walks with the arrow
//! keys.
pub mod cells;
pub mod engine;
pub mod food;
pub mod grid;
pub mod screen;
pub mod session;
pub mod state;
pub mod theorems;
pub mod walker;
