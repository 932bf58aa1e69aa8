//! A frame-driven arcade simulation: a player craft defends the field against
//! descending hostiles. Every rule of the per-frame pipeline is stated as a
//! contract over a mathematical model of the game and proved.

pub mod cadence;
pub mod constant;
pub mod enemy;
pub mod game_model;
pub mod game_state;
pub mod goodie;
pub mod input;
pub mod laws;
pub mod position;
pub mod random;
pub mod sequence;
pub mod ship;
pub mod shot;
