//! Rules of a small side-scrolling airplane shooter, kept apart from the
//! engine that opens the window and paints the frames.
//!
//! Everything here works on whole pixels and on timestamps in nanoseconds, so
//! that each rule can be stated exactly and proved.

pub mod config;
pub mod input;
pub mod sprite;
pub mod plane;
pub mod background;
pub mod bullet;
pub mod enemy;
pub mod game;
