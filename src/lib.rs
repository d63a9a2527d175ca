//! Simulation core of a side-scrolling "flappy" arcade game: a falling avatar
//! that flaps through scrolling gap obstacles, driven by a menu / play /
//! game-over state machine.
//!
//! All quantities are exact: vertical position and velocity are kept in
//! tenths of a cell, and frame time in whole microseconds.
pub mod physics;
pub mod obstacle;
pub mod random;
pub mod game;

pub use physics::Player;
pub use obstacle::Obstacle;
pub use random::{GameRng, RandomSource};
pub use game::{pluralize, GameMode, Input, RenderCommands, Sprite, State, TextLine};
