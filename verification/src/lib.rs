//! Game rules of a small arena shooter: health, cooldowns, abilities, effects,
//! pickups, respawning, settings and the decisions of the networking layer.
//! Every function here is verified against its contract; the engine glue
//! (systems, rendering, sockets) lives in the application crate.

pub mod time;
pub mod health;
pub mod timers;
pub mod ability;
pub mod network;
pub mod settings;
pub mod collision;
pub mod hero;
pub mod effect;
pub mod pickup;
pub mod movement;
pub mod menu;
