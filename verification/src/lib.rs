//! An error type that takes in errors of any displayable type and keeps, with
//! each, the span trace and the backtrace of the place where it was taken in.
//!
//! * [`error`] holds the container, [`Error`]: how it is built, converted
//!   into and rendered, and what holds of every rendering.
//! * [`layout`] lays a rendering out from the texts of its parts.
//! * [`cause`] is what the container keeps of the error it wraps.
//! * [`capture`] declares the span trace and the backtrace, which come from
//!   outside this crate.
//! * [`traced`] converts the error side of a result on request.
//! * [`outcome`] decides how a program ends with a success or an error.
//!
//! A span trace has something to show only where the program has installed a
//! subscriber with `tracing_error`'s `ErrorLayer`, and a backtrace only where
//! the process is set to capture backtraces. Without either an error is built
//! and rendered all the same, with an empty span trace section and no
//! backtrace section.

pub mod capture;
pub mod cause;
pub mod error;
pub mod layout;
pub mod outcome;
pub mod traced;

pub use crate::capture::CaptureStatus;
pub use crate::cause::Cause;
pub use crate::error::{Error, Result};
pub use crate::outcome::{Exit, MainResult, Render};
pub use crate::traced::Traced;
