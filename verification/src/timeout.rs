//! The timeout that every request of a batch runs under.

use duration_human::DurationHuman;
use vstd::prelude::*;

verus! {

/// The shortest timeout accepted: one second.
pub const MIN_TIMEOUT_NANOS: u64 = 1_000_000_000;

/// The longest timeout accepted: ten minutes.
pub const MAX_TIMEOUT_NANOS: u64 = 600_000_000_000;

/// The timeout used when none is given: thirty seconds.
pub const DEFAULT_TIMEOUT_NANOS: u64 = 30_000_000_000;

/// Whether a duration of `nanos` nanoseconds is an acceptable timeout.
pub open spec fn is_timeout(nanos: int) -> bool {
    MIN_TIMEOUT_NANOS <= nanos <= MAX_TIMEOUT_NANOS
}

/// Why a timeout was turned down.
#[derive(Clone, Copy, Debug, PartialEq, Eq, Structural)]
pub enum TimeoutError {
    /// The text is not a duration that fits in 64 bits of nanoseconds.
    Unreadable,
    /// The duration, given here in nanoseconds, lies outside one second to ten minutes.
    OutOfRange(u64),
}

/// What a refusal tells the user.
pub open spec fn timeout_error_text(error: TimeoutError) -> Seq<char> {
    match error {
        TimeoutError::Unreadable => "timeout must be a duration such as 30s or 5min"@,
        TimeoutError::OutOfRange(_) => "timeout must lie between 1s and 10min"@,
    }
}

impl TimeoutError {
    /// The message for the user.
    pub fn message(&self) -> (text: String)
        ensures
            text@ == timeout_error_text(*self),
    {
        match self {
            TimeoutError::Unreadable => "timeout must be a duration such as 30s or 5min".to_string(),
            TimeoutError::OutOfRange(_) => "timeout must lie between 1s and 10min".to_string(),
        }
    }
}

/// A timeout for one request. Every value lies within one second and ten
/// minutes, both included.
#[derive(Clone, Copy, Debug, PartialEq, Eq)]
pub struct Timeout {
    nanos: u64,
}

impl View for Timeout {
    type V = u64;

    closed spec fn view(&self) -> u64 {
        self.nanos
    }
}

/// The duration in nanoseconds that `DurationHuman` reads out of a text, or
/// `None` where it rejects the text.
pub uninterp spec fn parsed_duration(text: Seq<char>) -> Option<u64>;

/// `DurationHuman::try_from(&str)` followed by the conversion of the result to
/// nanoseconds. The contract only names the result: the same text always reads
/// as the same duration, or always fails.
#[verifier::external_body]
fn parse_duration(text: &str) -> (nanos: Option<u64>)
    ensures
        nanos == parsed_duration(text@),
{
    match DurationHuman::try_from(text) {
        Ok(duration) => Some(u64::from(&duration)),
        Err(_) => None,
    }
}

/// The verdict on a duration that was read, or failed to be read, from a text.
pub open spec fn accept_duration(parsed: Option<u64>) -> Result<u64, TimeoutError> {
    match parsed {
        None => Err(TimeoutError::Unreadable),
        Some(nanos) => if is_timeout(nanos as int) {
            Ok(nanos)
        } else {
            Err(TimeoutError::OutOfRange(nanos))
        },
    }
}

/// A timeout, or the refusal of one, as a mathematical value.
pub open spec fn timeout_result_view(result: Result<Timeout, TimeoutError>) -> Result<
    u64,
    TimeoutError,
> {
    match result {
        Ok(timeout) => Ok(timeout@),
        Err(error) => Err(error),
    }
}

impl Timeout {
    #[verifier::type_invariant]
    spec fn in_range(self) -> bool {
        is_timeout(self.nanos as int)
    }

    /// The timeout of `nanos` nanoseconds, if that lies within the accepted range.
    pub fn from_nanos(nanos: u64) -> (result: Result<Timeout, TimeoutError>)
        ensures
            timeout_result_view(result) == accept_duration(Some(nanos)),
    {
        if MIN_TIMEOUT_NANOS <= nanos && nanos <= MAX_TIMEOUT_NANOS {
            Ok(Timeout { nanos })
        } else {
            Err(TimeoutError::OutOfRange(nanos))
        }
    }

    /// The timeout for a duration as the parser delivered it: `None` where the
    /// text was no duration.
    pub fn from_parsed(parsed: Option<u64>) -> (result: Result<Timeout, TimeoutError>)
        ensures
            timeout_result_view(result) == accept_duration(parsed),
    {
        match parsed {
            None => Err(TimeoutError::Unreadable),
            Some(nanos) => Timeout::from_nanos(nanos),
        }
    }

    /// Reads a timeout such as `30s` or `5min`. Text that is no duration is
    /// turned down, and so is a duration under one second or over ten minutes.
    pub fn parse(text: &str) -> (result: Result<Timeout, TimeoutError>)
        ensures
            timeout_result_view(result) == accept_duration(parsed_duration(text@)),
    {
        Timeout::from_parsed(parse_duration(text))
    }

    /// The timeout in nanoseconds.
    pub fn nanos(&self) -> (nanos: u64)
        ensures
            nanos == self@,
            is_timeout(nanos as int),
    {
        proof {
            use_type_invariant(self);
        }
        self.nanos
    }
}

impl Default for Timeout {
    /// Thirty seconds.
    fn default() -> (timeout: Timeout)
        ensures
            timeout@ == DEFAULT_TIMEOUT_NANOS,
    {
        Timeout { nanos: DEFAULT_TIMEOUT_NANOS }
    }
}

} // verus!
