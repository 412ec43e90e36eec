//! A sink for log output that lives with log rotation.
//!
//! A rotation tool moves the log file away and sends the writing process a
//! hangup signal. A [`File`] notes the signal in a flag and, at the start of
//! the next write call, synchronizes the file it holds, lets it go and has
//! the file at its path opened anew.
//!
//! The sink decides; its caller does the input and output. The sink's
//! decisions are verified against the rules in [`protocol`], and what those
//! rules come to is proved in [`laws`].

pub mod error;
pub mod file;
pub mod laws;
pub mod platform;
pub mod protocol;

pub use crate::error::Error;
pub use crate::file::{open_mode, File, OpenMode};
pub use crate::platform::SIGHUP;
pub use crate::protocol::Action;
