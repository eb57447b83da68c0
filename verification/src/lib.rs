//! The station list, playback decisions and text layout of a terminal
//! internet-radio player, with their contracts.

pub mod text;
pub mod config;
pub mod app;
pub mod input;
pub mod metadata;
pub mod layout;
pub mod deps;
pub mod mpv;
pub mod laws;
