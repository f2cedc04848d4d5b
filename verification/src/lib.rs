//! Variable-speed audio playback engine.

pub mod buffer;
pub mod button;
pub mod controller;
pub mod icon;
pub mod loader;
pub mod motion;
pub mod player;
pub mod sample;
pub mod slot;
pub mod speed;
pub mod time;
