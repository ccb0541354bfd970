//! Removes the delete markers that hide the latest version of objects in a
//! versioned bucket, one key prefix at a time.
//!
//! The library holds the decisions: which markers of a version listing are
//! removed, what a prefix's unit of work asks of the storage service next, how
//! a batch of prefixes advances, and the line reported for each prefix. The
//! program around it performs the requests and reads the input.
pub mod batch;
pub mod laws;
pub mod marker;
pub mod session;

pub use batch::{report_line, Batch, BatchAction, BatchEvent};
pub use marker::{resolve_markers, ActionableMarker, DeleteMarker};
pub use session::{Action, ErrorKind, Event, LineError, LineSession};
