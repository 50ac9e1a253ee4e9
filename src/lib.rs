//! Per-frame simulation core of a side-scrolling platformer.
//!
//! World lengths are fixed-point integers: one world unit is
//! [`units::SUBUNITS`] sub-units, so every tunable rate of the game is an
//! exact integer and each rule below is proved over plain integer arithmetic.

pub mod units;
pub mod geometry;
pub mod map;
pub mod scene;
pub mod grid;
pub mod motion;
pub mod game;
pub mod enemies;
pub mod menu;
