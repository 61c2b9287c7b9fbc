//! A structured error taxonomy and termination protocol for a command-line
//! tool.
//!
//! The crate unifies heterogeneous low-level failures under one error type
//! tagged with the operation that was being attempted, optionally annotated
//! with the call site at which the failure was captured, and supports
//! chained-cause reporting. The exit type maps the three possible outcomes
//! of one supervised run — success, a handled error, an unexpected defect —
//! to the lines to print and the exit disposition.

pub mod digits;
pub mod error;
pub mod exit;

pub use error::{Capture, Error, Location, Operation, SourceError};
pub use exit::{Disposition, Exit, Report, _do};
