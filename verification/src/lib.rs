//! Mr Roller: a dice game of daily rolls, a shop, admin tools and random
//! events, with its rules stated as contracts and proved.

pub mod errors;
pub mod player;
pub mod item;
pub mod response;
pub mod cooldown;
pub mod event;
pub mod config;
pub mod store;
pub mod game;
pub mod command;
pub mod scheduler;
pub mod laws;
pub mod cli;
pub mod discord;
pub mod rows;
pub mod render;
pub mod local;
pub mod sources;
pub mod text;
