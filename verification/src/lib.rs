//! Marquee resolution and media-player orchestration for an emulation
//! frontend: selection events are decoded, resolved to an image through an
//! ordered fallback search, and turned into the shell commands that drive the
//! external player.  Every function is pure: callers supply what is on disk
//! and run the commands that are handed back.

pub mod api;
pub mod config;
pub mod events;
pub mod files;
pub mod generator;
pub mod ipc;
pub mod keyboard;
pub mod log_monitor;
pub mod marquee;
pub mod marquee_laws;
pub mod process;
pub mod scraper;
pub mod state;
pub mod systems;
pub mod table;
pub mod template;
pub mod text;
