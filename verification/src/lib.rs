//! Verified core of the media window controller: geometry, Hyprland reply
//! handling, configuration rules, the avoider's placement decisions, the
//! dispatch batches of the window commands, the mpv IPC protocol, and the
//! reactions of the avoider daemon. Sockets, files, clocks and processes
//! stay with the caller, which hands the library what it read and carries
//! out what the library plans.
pub mod actions;
pub mod avoid;
pub mod close;
pub mod config;
pub mod daemon;
pub mod error;
pub mod focus;
pub mod fullscreen;
pub mod geometry;
pub mod hyprland;
pub mod minify;
pub mod move_window;
pub mod mpv;
pub mod paths;
pub mod pin;
pub mod position;
pub mod text;
pub mod window;
pub mod workflow;
