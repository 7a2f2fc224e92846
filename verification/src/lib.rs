//! Human-readable error reports for command-line programs.
//!
//! A [`UserError`] carries one primary message, an ordered chain of reasons
//! and an ordered list of help tips. The crate builds such values, converts
//! any displayable value into one, lays the value out as the lines of a
//! console report, and derives the exit code with which a program ends after
//! a failed I/O operation. Writing the lines and ending the process are left
//! to the caller.

pub mod convert;
pub mod error;
pub mod exit;
pub mod laws;
pub mod model;
pub mod render;

pub use convert::IntoUserError;
pub use error::UserError;
pub use exit::{exit_code, try_unwrap_io, Termination, FALLBACK_EXIT_CODE, FALLBACK_NOTE};
pub use model::UserErrorView;
pub use render::{enumeration, enumerator, HELP_FIRST, HELP_REST, REASON_FIRST, REASON_REST};
