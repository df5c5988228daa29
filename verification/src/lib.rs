//! Decision core of a media-aware screensaver blocker.
//!
//! The crate performs no input or output. Each component is a small state
//! machine: the caller feeds it the events it observed on the message bus and
//! carries out the action that the component answers with.

pub mod application;
pub mod icon;
pub mod media_player;
pub mod monitor;
pub mod screen_blocking;
pub mod screensaver;
pub mod text;
pub mod utils;
