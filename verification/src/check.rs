//! One check: the request it starts from and the result it ends in.

use crate::outcome::{classify, response_view, Outcome, OutcomeView};
use crate::timeout::Timeout;
use vstd::prelude::*;

verus! {

/// What to ask for: one GET of `url`, given up after `timeout`.
#[derive(Clone, Debug, PartialEq, Eq)]
pub struct CheckRequest {
    pub url: String,
    pub timeout: Timeout,
}

/// A [`CheckRequest`] as a mathematical value; the timeout in nanoseconds.
pub struct CheckRequestView {
    pub url: Seq<char>,
    pub timeout: u64,
}

impl View for CheckRequest {
    type V = CheckRequestView;

    open spec fn view(&self) -> CheckRequestView {
        CheckRequestView { url: self.url@, timeout: self.timeout@ }
    }
}

/// What one check came to: the URL as it was given, the time from the start
/// of the request to its answer or failure, and the outcome.
#[derive(Clone, Debug, PartialEq, Eq)]
pub struct CheckResult {
    pub url: String,
    /// Wall-clock time the request took, in nanoseconds.
    pub elapsed_nanos: u64,
    pub outcome: Outcome,
}

/// A [`CheckResult`] as a mathematical value.
pub struct CheckResultView {
    pub url: Seq<char>,
    pub elapsed_nanos: u64,
    pub outcome: OutcomeView,
}

impl View for CheckResult {
    type V = CheckResultView;

    open spec fn view(&self) -> CheckResultView {
        CheckResultView {
            url: self.url@,
            elapsed_nanos: self.elapsed_nanos,
            outcome: self.outcome@,
        }
    }
}

/// The result of the check of `url` that took `elapsed_nanos` and came back
/// with `response`.
pub open spec fn result_of(
    url: Seq<char>,
    elapsed_nanos: u64,
    response: Result<u16, Seq<char>>,
) -> CheckResultView {
    CheckResultView { url, elapsed_nanos, outcome: classify(response) }
}

impl CheckResult {
    /// Records how the check of `url` ended. The URL and the elapsed time are
    /// kept as given; the response alone decides the outcome.
    pub fn from_response(url: String, elapsed_nanos: u64, response: Result<u16, String>) -> (result:
        CheckResult)
        ensures
            result@ == result_of(url@, elapsed_nanos, response_view(response)),
    {
        CheckResult { url, elapsed_nanos, outcome: Outcome::from_response(response) }
    }
}

} // verus!
