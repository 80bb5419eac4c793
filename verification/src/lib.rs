//! Rules of a bubble-popping arcade game, on exact integer coordinates.
//!
//! Lengths are counted in sub-pixels, sixty to a pixel, and time in ticks,
//! sixty to a second, so that a body moving at `v` pixels per second
//! covers exactly `v` sub-pixels in one tick.
//!
//! A [`game::Game`] holds everything between ticks: the screen that is
//! shown, what is on the game screen, and the counts of the run. The
//! splash screen hands over to the menu by `countdown`, the menu starts
//! a run by `action_system`, and `tick` plays the run, one tick at a
//! time, until the last bubble is popped or the last life is lost.
//! Drawing, keys and the clock are left to the caller.

pub mod board;
pub mod bubble;
pub mod collision;
pub mod components;
pub mod config;
pub mod game;
pub mod laws;
pub mod menu;
pub mod player;
pub mod screen;
pub mod splash;
pub mod state;
pub mod tick;
