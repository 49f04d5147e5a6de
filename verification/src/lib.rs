//! Core of a desktop wallpaper updater driven by a remote feed.
//!
//! The crate verifies the engineering-hard pieces of the updater: the
//! realtime subscription protocol (message encoding, envelope decoding and
//! the dispatch rules that turn inbound envelopes into outbound actions),
//! the wallpaper controller state machine, the video compositor command
//! planner, and the monitor-surface locator. All platform work (the
//! websocket transport, the OS wallpaper interface, the media engine, window
//! creation) is performed by a thin unverified driver that executes the
//! commands these components decide on.

pub mod text;
pub mod json;
pub mod walltaker;
pub mod wallpaper;
pub mod video;
pub mod settings;
pub mod dispatch;
pub mod surfaces;
