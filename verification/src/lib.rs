//! Verified core of an HTTP status checker.
//!
//! The crate holds everything the checker decides: which requests a batch of
//! URLs gives rise to, how a response becomes an outcome, how the results of
//! concurrent checks are gathered in input order, and how they are reported.
//! Sending requests, waiting for them and printing are left to the caller.

pub mod batch;
pub mod check;
pub mod error;
pub mod outcome;
pub mod report;
pub mod timeout;
pub mod trace;
pub mod urls;

pub use batch::{Batch, RecordError};
pub use check::{CheckRequest, CheckResult};
pub use error::{verdict, HttpCheckerError};
pub use outcome::{Outcome, Status};
pub use report::{plain_text, report_line, Color, Span};
pub use timeout::{Timeout, TimeoutError};
pub use trace::{Timestamp, Tracer};
pub use urls::read_url_lines;
