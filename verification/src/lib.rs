//! A local generator of 64-bit identifiers that sort by creation time.
//!
//! Each identifier packs three bit fields, from the most significant bit down:
//! the milliseconds elapsed since a configured epoch, the identifier of the
//! node that issued it, and a counter that tells apart the identifiers one node
//! issues within one millisecond.

pub mod clock;
pub mod config;
pub mod error;
pub mod generator;
pub mod laws;
pub mod layout;
pub mod state;
pub mod text;

pub use config::Config;
pub use error::{CornFlakeConfigError, CornFlakeConfigResult, CornFlakeError, CornFlakeResult};
pub use generator::CornFlake;
