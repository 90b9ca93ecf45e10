//! Game logic of the "Lift" platformer: vectors, input bookkeeping,
//! ability timers, particle slots, character state machines and
//! the small data tables the renderer and the UI read.

pub mod vec;
pub mod utils;
pub mod entity;
pub mod ability;
pub mod input;
pub mod game;
pub mod player_stats;
pub mod renderer;
pub mod frame;
pub mod frame_atlas;
pub mod graphics;
pub mod gui;
pub mod ui;
pub mod level;
pub mod world;
pub mod entities;
