//! The lines that trace a request, for verbose runs: one when it starts, one
//! when it has finished.

use crate::outcome::{Outcome, OutcomeView};
use crate::report::{outcome_label, outcome_text, spans_view, Color, Span, SpanView};
use vstd::prelude::*;

verus! {

/// A moment: seconds and nanoseconds since the Unix epoch, in UTC.
#[derive(Clone, Copy, Debug, PartialEq, Eq, Structural)]
pub struct Timestamp {
    pub seconds: i64,
    pub nanos: u32,
}

/// The moment as `chrono` writes it in RFC 3339, or `None` where `chrono` has
/// no date for it.
pub uninterp spec fn rfc3339_text(seconds: i64, nanos: u32) -> Option<Seq<char>>;

/// An optional text as a mathematical value.
pub open spec fn text_view(text: Option<String>) -> Option<Seq<char>> {
    match text {
        Some(shown) => Some(shown@),
        None => None,
    }
}

/// `DateTime::from_timestamp` followed by `DateTime::to_rfc3339`. The first
/// gives `None` for a moment outside the dates `chrono` can hold; the contract
/// only names the result, which depends on the two numbers alone.
#[verifier::external_body]
fn render_rfc3339(seconds: i64, nanos: u32) -> (text: Option<String>)
    ensures
        text_view(text) == rfc3339_text(seconds, nanos),
{
    match chrono::DateTime::from_timestamp(seconds, nanos) {
        Some(moment) => Some(moment.to_rfc3339()),
        None => None,
    }
}

/// What a trace line shows for a moment that may have no date.
pub open spec fn stamp_or_unknown(shown: Option<Seq<char>>) -> Seq<char> {
    match shown {
        Some(text) => text,
        None => "unknown time"@,
    }
}

/// What a trace line shows for the moment `at`: its RFC 3339 form, or
/// `unknown time` where it has none.
pub open spec fn stamp_text(at: Timestamp) -> Seq<char> {
    stamp_or_unknown(rfc3339_text(at.seconds, at.nanos))
}

/// The spans of the line that says a request has started.
pub open spec fn started_layout(stamp: Seq<char>, url: Seq<char>) -> Seq<SpanView> {
    seq![
        SpanView { text: "["@, color: Color::Plain },
        SpanView { text: stamp, color: Color::Red },
        SpanView { text: "] Starting request to "@, color: Color::Plain },
        SpanView { text: url, color: Color::Red },
        SpanView { text: "."@, color: Color::Plain },
    ]
}

/// The spans of the line that says a request has finished: with a status,
/// shown in red like the URL, or with an error, both left plain.
pub open spec fn finished_layout(
    stamp: Seq<char>,
    url: Seq<char>,
    success: bool,
    shown: Seq<char>,
) -> Seq<SpanView> {
    let accent = if success {
        Color::Red
    } else {
        Color::Plain
    };
    let wording = if success {
        " finished with status "@
    } else {
        " finished with error "@
    };
    seq![
        SpanView { text: "["@, color: Color::Plain },
        SpanView { text: stamp, color: Color::Red },
        SpanView { text: "] Request to "@, color: Color::Plain },
        SpanView { text: url, color: accent },
        SpanView { text: wording, color: Color::Plain },
        SpanView { text: shown, color: accent },
        SpanView { text: "."@, color: Color::Plain },
    ]
}

/// The line that traces the start of the request for `url` at the moment `at`.
pub open spec fn started_spans(at: Timestamp, url: Seq<char>) -> Seq<SpanView> {
    started_layout(stamp_text(at), url)
}

/// The line that traces the end of the request for `url` at the moment `at`.
pub open spec fn finished_spans(at: Timestamp, url: Seq<char>, outcome: OutcomeView) -> Seq<
    SpanView,
> {
    finished_layout(stamp_text(at), url, outcome is Success, outcome_text(outcome))
}

/// A line that may be left out, as a mathematical value.
pub open spec fn line_view(line: Option<Vec<Span>>) -> Option<Seq<SpanView>> {
    match line {
        Some(spans) => Some(spans_view(spans@)),
        None => None,
    }
}

/// The text a trace line shows for a moment, given what `chrono` made of it.
pub fn stamp_label(shown: Option<String>) -> (label: String)
    ensures
        label@ == stamp_or_unknown(text_view(shown)),
{
    match shown {
        Some(text) => text,
        None => "unknown time".to_string(),
    }
}

/// Lays out the line for a started request from its two fields.
pub fn layout_started(stamp: &str, url: &str) -> (line: Vec<Span>)
    ensures
        spans_view(line@) == started_layout(stamp@, url@),
{
    let line = vec![
        Span { text: "[".to_string(), color: Color::Plain },
        Span { text: stamp.to_string(), color: Color::Red },
        Span { text: "] Starting request to ".to_string(), color: Color::Plain },
        Span { text: url.to_string(), color: Color::Red },
        Span { text: ".".to_string(), color: Color::Plain },
    ];
    assert(spans_view(line@) =~= started_layout(stamp@, url@));
    line
}

/// Lays out the line for a finished request from its fields: `shown` is the
/// status if `success` holds, and the description of the error if not.
pub fn layout_finished(stamp: &str, url: &str, success: bool, shown: &str) -> (line: Vec<Span>)
    ensures
        spans_view(line@) == finished_layout(stamp@, url@, success, shown@),
{
    let accent = if success {
        Color::Red
    } else {
        Color::Plain
    };
    let wording = if success {
        " finished with status "
    } else {
        " finished with error "
    };
    let line = vec![
        Span { text: "[".to_string(), color: Color::Plain },
        Span { text: stamp.to_string(), color: Color::Red },
        Span { text: "] Request to ".to_string(), color: Color::Plain },
        Span { text: url.to_string(), color: accent },
        Span { text: wording.to_string(), color: Color::Plain },
        Span { text: shown.to_string(), color: accent },
        Span { text: ".".to_string(), color: Color::Plain },
    ];
    assert(spans_view(line@) =~= finished_layout(stamp@, url@, success, shown@));
    line
}

/// Decides what a run traces: every request if it is verbose, nothing if not.
#[derive(Clone, Copy, Debug, PartialEq, Eq, Structural)]
pub struct Tracer {
    pub verbose: bool,
}

impl Tracer {
    /// The line to show when the request for `url` starts at the moment `at`,
    /// if the run is verbose.
    pub fn started(&self, at: Timestamp, url: &str) -> (line: Option<Vec<Span>>)
        ensures
            line_view(line) == if self.verbose {
                Some(started_spans(at, url@))
            } else {
                None
            },
    {
        if self.verbose {
            let stamp = stamp_label(render_rfc3339(at.seconds, at.nanos));
            Some(layout_started(stamp.as_str(), url))
        } else {
            None
        }
    }

    /// The line to show when the request for `url` has ended in `outcome` at
    /// the moment `at`, if the run is verbose.
    pub fn finished(&self, at: Timestamp, url: &str, outcome: &Outcome) -> (line: Option<
        Vec<Span>,
    >)
        ensures
            line_view(line) == if self.verbose {
                Some(finished_spans(at, url@, outcome@))
            } else {
                None
            },
    {
        if self.verbose {
            let stamp = stamp_label(render_rfc3339(at.seconds, at.nanos));
            let shown = outcome_label(outcome);
            Some(layout_finished(stamp.as_str(), url, outcome.is_success(), shown.as_str()))
        } else {
            None
        }
    }
}

} // verus!
