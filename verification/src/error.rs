//! The errors that end a run, and the verdict on a finished batch.

use crate::check::{CheckResult, CheckResultView};
use crate::batch::results_view;
use crate::outcome::{Outcome, OutcomeView};
use vstd::prelude::*;
use vstd::string::StringExecFns;

verus! {

/// Why a run failed. Each kind carries the description of what went wrong.
#[derive(Clone, Debug, PartialEq, Eq)]
pub enum HttpCheckerError {
    /// A request failed in transport.
    Reqwest(String),
    /// The file of URLs could not be read.
    Io(String),
    /// A task of the run could not be joined.
    Tokio(String),
}

/// An [`HttpCheckerError`] as a mathematical value.
pub enum HttpCheckerErrorView {
    Reqwest(Seq<char>),
    Io(Seq<char>),
    Tokio(Seq<char>),
}

impl View for HttpCheckerError {
    type V = HttpCheckerErrorView;

    open spec fn view(&self) -> HttpCheckerErrorView {
        match self {
            HttpCheckerError::Reqwest(description) => HttpCheckerErrorView::Reqwest(description@),
            HttpCheckerError::Io(description) => HttpCheckerErrorView::Io(description@),
            HttpCheckerError::Tokio(description) => HttpCheckerErrorView::Tokio(description@),
        }
    }
}

/// What an error tells the user: its kind, then its description.
pub open spec fn error_text(error: HttpCheckerErrorView) -> Seq<char> {
    match error {
        HttpCheckerErrorView::Reqwest(description) => "Request error: "@ + description,
        HttpCheckerErrorView::Io(description) => "IO error: "@ + description,
        HttpCheckerErrorView::Tokio(description) => "Threading error: "@ + description,
    }
}

/// The description of the first failure among `results`, if there is one.
pub open spec fn first_failure(results: Seq<CheckResultView>) -> Option<Seq<char>>
    decreases results.len(),
{
    if results.len() == 0 {
        None
    } else {
        match results.first().outcome {
            OutcomeView::Failure(description) => Some(description),
            OutcomeView::Success(_) => first_failure(results.drop_first()),
        }
    }
}

/// How a run with these results ends: well if every check was answered, and
/// with the first failure as a request error if not.
pub open spec fn verdict_of(results: Seq<CheckResultView>) -> Result<(), HttpCheckerErrorView> {
    match first_failure(results) {
        None => Ok(()),
        Some(description) => Err(HttpCheckerErrorView::Reqwest(description)),
    }
}

/// The end of a run as a mathematical value.
pub open spec fn verdict_view(verdict: Result<(), HttpCheckerError>) -> Result<
    (),
    HttpCheckerErrorView,
> {
    match verdict {
        Ok(()) => Ok(()),
        Err(error) => Err(error@),
    }
}

impl HttpCheckerError {
    /// The message for the user.
    pub fn message(&self) -> (text: String)
        ensures
            text@ == error_text(self@),
    {
        match self {
            HttpCheckerError::Reqwest(description) => "Request error: ".to_string().concat(
                description.as_str(),
            ),
            HttpCheckerError::Io(description) => "IO error: ".to_string().concat(
                description.as_str(),
            ),
            HttpCheckerError::Tokio(description) => "Threading error: ".to_string().concat(
                description.as_str(),
            ),
        }
    }
}

/// Decides how a run ends once every result has been reported. A run in which
/// a check failed in transport ends in error, however many others succeeded;
/// the error is that of the first such check in the order of the URLs.
pub fn verdict(results: &Vec<CheckResult>) -> (end: Result<(), HttpCheckerError>)
    ensures
        verdict_view(end) == verdict_of(results_view(results@)),
{
    let ghost all = results_view(results@);
    let mut seen: usize = 0;
    assert(all.skip(0) =~= all);
    while seen < results.len()
        invariant
            seen <= results.len(),
            all == results_view(results@),
            first_failure(all) == first_failure(all.skip(seen as int)),
        decreases results.len() - seen,
    {
        proof {
            let rest = all.skip(seen as int);
            assert(rest.first() == results@[seen as int]@);
            assert(rest.drop_first() =~= all.skip(seen + 1));
        }
        match &results[seen].outcome {
            Outcome::Failure(description) => {
                return Err(HttpCheckerError::Reqwest(description.clone()));
            },
            Outcome::Success(_) => {},
        }
        seen += 1;
    }
    Ok(())
}

/// A run ends well exactly if no check failed in transport.
pub proof fn lemma_verdict_ok(results: Seq<CheckResultView>)
    ensures
        verdict_of(results) is Ok <==> forall|i: int|
            0 <= i < results.len() ==> (#[trigger] results[i]).outcome is Success,
    decreases results.len(),
{
    if results.len() > 0 {
        let rest = results.drop_first();
        lemma_verdict_ok(rest);
        if verdict_of(results) is Ok {
            assert forall|i: int| 0 <= i < results.len() implies (#[trigger] results[i]).outcome
                is Success by {
                if i > 0 {
                    assert(results[i] == rest[i - 1]);
                }
            }
        } else if results.first().outcome is Success {
            let i = choose|i: int| 0 <= i < rest.len() && !((#[trigger] rest[i]).outcome is Success);
            assert(results[i + 1] == rest[i]);
        }
    }
}

} // verus!
