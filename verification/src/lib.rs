//! Core of a 2D tile-based platformer: fixed-point physics accumulation,
//! bisection-based collision resolution against a tile grid, and the
//! block-reaction state machine for bumped terrain cells.

#![verifier::loop_isolation(false)]

pub mod background;
pub mod config;
pub mod block;
pub mod controller;
pub mod editor;
pub mod enemy;
pub mod entity;
pub mod fixed;
pub mod game;
pub mod hitbox;
pub mod interface;
pub mod keybindings;
pub mod level;
pub mod movement;
pub mod object;
pub mod player;
pub mod physics;
pub mod render;
pub mod resource;
mod rng;
pub mod state;
pub mod texture_id;
pub mod utility;
