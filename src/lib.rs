//! A process-local logging pipeline.
//!
//! - [`formatter`] turns an event (a level and ordered named fields) into an
//!   aligned console line, styled or plain, with a second line for a cause;
//!   [`fields`], [`level`], [`style`] and [`url`] supply its parts.
//! - [`writer`] is the buffered background writer: non-blocking producer
//!   handles, a bounded channel, and the worker that owns the buffer and
//!   decides what reaches the output stream.
//! - [`logger`] is an explicitly constructed frontend over both, set up from
//!   [`config`]; [`error`] and [`paths`] hold the error types and the
//!   data-directory settings.
pub mod config;
pub mod error;
pub mod fields;
pub mod formatter;
pub mod level;
pub mod logger;
pub mod paths;
pub mod style;
pub mod text;
pub mod url;
pub mod writer;
