//! Core of a terminal tracker-module player.
//!
//! The crate holds the player's logic: the control model that maps step
//! indices to playback parameters, the playlist with its cursor, filter and
//! retry discipline, the shared state machine that hands sessions between
//! the loader and the realtime renderer, and the versioned snapshot
//! publisher that lets a UI read transport positions without blocking the
//! audio path. Device output, terminal drawing and file I/O live in the
//! application layer around it.

pub mod control;
pub mod engine;
pub mod loading;
pub mod logging;
pub mod moment;
pub mod options;
pub mod player;
pub mod playlist;
pub mod text;
pub mod ui;
pub mod util;
