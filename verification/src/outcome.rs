//! The outcome of checking one URL.

use vstd::prelude::*;

verus! {

/// Whether `code` is a status that an HTTP answer can carry: a number of three
/// digits, 100 to 999. The classes of HTTP end at 599; the numbers above are
/// without a class, and a server may send them all the same.
pub open spec fn is_status_code(code: int) -> bool {
    100 <= code <= 999
}

/// The status of an HTTP answer. Every value lies within 100 to 999.
#[derive(Clone, Copy, Debug, PartialEq, Eq)]
pub struct Status {
    code: u16,
}

impl View for Status {
    type V = u16;

    closed spec fn view(&self) -> u16 {
        self.code
    }
}

impl Status {
    #[verifier::type_invariant]
    spec fn in_range(self) -> bool {
        is_status_code(self.code as int)
    }

    /// The status with the given code, if an HTTP answer can carry that code.
    pub fn new(code: u16) -> (status: Option<Status>)
        ensures
            status is Some <==> is_status_code(code as int),
            status matches Some(s) ==> s@ == code,
    {
        if 100 <= code && code <= 999 {
            Some(Status { code })
        } else {
            None
        }
    }

    /// The numeric code.
    pub fn code(&self) -> (code: u16)
        ensures
            code == self@,
            is_status_code(code as int),
    {
        proof {
            use_type_invariant(self);
        }
        self.code
    }
}

/// What became of one check: the status the server answered with, or a
/// description of why no answer came.
#[derive(Clone, Debug, PartialEq, Eq)]
pub enum Outcome {
    /// The server answered. Any status counts, whatever its class.
    Success(Status),
    /// The request failed in transport: refused, timed out, unresolved, malformed.
    Failure(String),
}

/// An [`Outcome`] as a mathematical value.
pub enum OutcomeView {
    Success(u16),
    Failure(Seq<char>),
}

impl View for Outcome {
    type V = OutcomeView;

    open spec fn view(&self) -> OutcomeView {
        match self {
            Outcome::Success(status) => OutcomeView::Success(status@),
            Outcome::Failure(description) => OutcomeView::Failure(description@),
        }
    }
}

/// The description given to a number that no HTTP answer can carry.
pub open spec fn invalid_status_text() -> Seq<char> {
    "status code outside 100-999"@
}

/// The outcome that a response stands for. An answer is a success whatever its
/// status says: every status that an HTTP answer can carry, 100 to 999, is
/// kept as it is. Only a transport error is a failure. A number outside 100 to
/// 999 is the status of no answer, and counts as a failure too.
pub open spec fn classify(response: Result<u16, Seq<char>>) -> OutcomeView {
    match response {
        Ok(code) => if is_status_code(code as int) {
            OutcomeView::Success(code)
        } else {
            OutcomeView::Failure(invalid_status_text())
        },
        Err(description) => OutcomeView::Failure(description),
    }
}

/// A response as a mathematical value.
pub open spec fn response_view(response: Result<u16, String>) -> Result<u16, Seq<char>> {
    match response {
        Ok(code) => Ok(code),
        Err(description) => Err(description@),
    }
}

impl Outcome {
    /// Turns what the HTTP client handed back into an outcome: the status of
    /// the answer, or the description of the transport error.
    pub fn from_response(response: Result<u16, String>) -> (outcome: Outcome)
        ensures
            outcome@ == classify(response_view(response)),
    {
        match response {
            Ok(code) => match Status::new(code) {
                Some(status) => Outcome::Success(status),
                None => Outcome::Failure("status code outside 100-999".to_string()),
            },
            Err(description) => Outcome::Failure(description),
        }
    }

    /// Whether the server answered.
    pub fn is_success(&self) -> (yes: bool)
        ensures
            yes == (self@ is Success),
    {
        match self {
            Outcome::Success(_) => true,
            Outcome::Failure(_) => false,
        }
    }
}

/// An answer is a success with exactly the status the server gave, whatever
/// the class of that status: a 404 or a 500 is no failure of the check, and
/// neither is a status above 599, which has no class.
pub proof fn lemma_answer_is_success(code: u16)
    requires
        is_status_code(code as int),
    ensures
        classify(Ok(code)) == OutcomeView::Success(code),
{
}

/// A transport error, an expired timeout among them, is a failure that
/// carries the description of the error.
pub proof fn lemma_error_is_failure(description: Seq<char>)
    ensures
        classify(Err(description)) == OutcomeView::Failure(description),
{
}

/// A check fails if and only if no answer came: the outcome is a failure
/// exactly when the response is a transport error or a number that no answer
/// can carry.
pub proof fn lemma_failure_means_no_answer(response: Result<u16, Seq<char>>)
    ensures
        classify(response) is Failure <==> !(response matches Ok(code) && is_status_code(
            code as int,
        )),
{
}

} // verus!
