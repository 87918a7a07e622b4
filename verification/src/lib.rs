//! Simulation core of a small 2D platformer: fixed-point physics
//! integration and axis-aware collision resolution over an entity world.

pub mod atom;
pub mod camera;
pub mod collision;
pub mod common;
pub mod components;
pub mod config;
pub mod controls;
pub mod fixed;
pub mod game_state;
pub mod geometry;
pub mod integrator;
pub mod level;
pub mod physics;
pub mod tick;
pub mod world;
