//! The two long-running monitors: discovery of media players, and the
//! aggregation of their playback changes.

pub mod media_monitor;
pub mod playback_monitor;
