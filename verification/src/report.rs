//! The line that reports one result, as colored spans of text.

use crate::check::{CheckResult, CheckResultView};
use crate::outcome::{Outcome, OutcomeView, Status};
use duration_human::DurationHuman;
use vstd::prelude::*;
use vstd::string::StringExecFns;

verus! {

/// The color a span is meant to be shown in.
#[derive(Clone, Copy, Debug, PartialEq, Eq, Structural)]
pub enum Color {
    Plain,
    Red,
    Blue,
    Purple,
}

/// A stretch of text with one color.
#[derive(Clone, Debug, PartialEq, Eq)]
pub struct Span {
    pub text: String,
    pub color: Color,
}

/// A [`Span`] as a mathematical value.
pub struct SpanView {
    pub text: Seq<char>,
    pub color: Color,
}

impl View for Span {
    type V = SpanView;

    open spec fn view(&self) -> SpanView {
        SpanView { text: self.text@, color: self.color }
    }
}

/// A line of spans as a mathematical value.
pub open spec fn spans_view(spans: Seq<Span>) -> Seq<SpanView> {
    Seq::new(spans.len(), |i: int| spans[i]@)
}

/// The text of a line with its colors left out.
pub open spec fn plain(spans: Seq<SpanView>) -> Seq<char>
    decreases spans.len(),
{
    if spans.len() == 0 {
        Seq::empty()
    } else {
        plain(spans.drop_last()) + spans.last().text
    }
}

/// What `StatusCode` shows for the status with this code: the number and the
/// reason phrase that belongs to it.
pub uninterp spec fn status_text(code: u16) -> Seq<char>;

/// What `DurationHuman` shows, in its long form, for a duration of this many
/// nanoseconds.
pub uninterp spec fn human_readable(nanos: u64) -> Seq<char>;

/// `StatusCode::from_u16` followed by the `Display` of the status. The
/// conversion succeeds on the codes 100 to 999 and on no others; of the text
/// the contract says only that it depends on the code alone.
#[verifier::external_body]
fn render_status(code: u16) -> (text: Option<String>)
    ensures
        text is Some <==> 100 <= code <= 999,
        text matches Some(shown) ==> shown@ == status_text(code),
{
    match reqwest::StatusCode::from_u16(code) {
        Ok(status) => Some(status.to_string()),
        Err(_) => None,
    }
}

/// `DurationHuman::from(u64)` followed by its alternate `Display`, the form
/// that spells a duration out unit by unit. Of the text the contract says only
/// that it depends on the number of nanoseconds alone.
#[verifier::external_body]
fn render_duration(nanos: u64) -> (text: String)
    ensures
        text@ == human_readable(nanos),
{
    format!("{:#}", DurationHuman::from(nanos))
}

/// What the status column shows for an outcome: the status as `StatusCode`
/// shows it, or the description of the failure.
pub open spec fn outcome_text(outcome: OutcomeView) -> Seq<char> {
    match outcome {
        OutcomeView::Success(code) => status_text(code),
        OutcomeView::Failure(description) => description,
    }
}

/// The spans of a report line with the given three columns.
pub open spec fn report_layout(url: Seq<char>, status: Seq<char>, elapsed: Seq<char>) -> Seq<
    SpanView,
> {
    seq![
        SpanView { text: url, color: Color::Blue },
        SpanView { text: ", status: "@, color: Color::Plain },
        SpanView { text: status, color: Color::Red },
        SpanView { text: ", timeout: "@, color: Color::Plain },
        SpanView { text: elapsed, color: Color::Purple },
    ]
}

/// The spans of the line that reports `result`.
pub open spec fn report_spans(result: CheckResultView) -> Seq<SpanView> {
    report_layout(
        result.url,
        outcome_text(result.outcome),
        human_readable(result.elapsed_nanos),
    )
}

/// The text of `status` as it is shown to the user.
pub fn status_label(status: Status) -> (label: String)
    ensures
        label@ == status_text(status@),
{
    match render_status(status.code()) {
        Some(shown) => shown,
        None => vstd::pervasive::unreached(),
    }
}

/// The text of the status column for `outcome`.
pub fn outcome_label(outcome: &Outcome) -> (label: String)
    ensures
        label@ == outcome_text(outcome@),
{
    match outcome {
        Outcome::Success(status) => status_label(*status),
        Outcome::Failure(description) => description.clone(),
    }
}

/// Lays out a report line from its three columns: the URL in blue, the status
/// in red, the elapsed time in purple, with the labels between them.
pub fn layout_report(url: &str, status: &str, elapsed: &str) -> (line: Vec<Span>)
    ensures
        spans_view(line@) == report_layout(url@, status@, elapsed@),
{
    let line = vec![
        Span { text: url.to_string(), color: Color::Blue },
        Span { text: ", status: ".to_string(), color: Color::Plain },
        Span { text: status.to_string(), color: Color::Red },
        Span { text: ", timeout: ".to_string(), color: Color::Plain },
        Span { text: elapsed.to_string(), color: Color::Purple },
    ];
    assert(spans_view(line@) =~= report_layout(url@, status@, elapsed@));
    line
}

/// The line that reports `result`: its URL, its status or the description of
/// its failure, and the time it took.
pub fn report_line(result: &CheckResult) -> (line: Vec<Span>)
    ensures
        spans_view(line@) == report_spans(result@),
{
    let status = outcome_label(&result.outcome);
    let elapsed = render_duration(result.elapsed_nanos);
    layout_report(result.url.as_str(), status.as_str(), elapsed.as_str())
}

/// The text of a line, span after span, without the colors.
pub fn plain_text(line: &Vec<Span>) -> (text: String)
    ensures
        text@ == plain(spans_view(line@)),
{
    let mut text = String::new();
    let mut done: usize = 0;
    while done < line.len()
        invariant
            done <= line.len(),
            text@ == plain(spans_view(line@).take(done as int)),
        decreases line.len() - done,
    {
        text.append(line[done].text.as_str());
        proof {
            let views = spans_view(line@);
            assert(views.take(done + 1).drop_last() =~= views.take(done as int));
        }
        done += 1;
    }
    assert(spans_view(line@).take(done as int) =~= spans_view(line@));
    text
}

/// The text of a report line reads: the URL, `, status: `, the status,
/// `, timeout: `, the elapsed time.
pub proof fn lemma_report_text(url: Seq<char>, status: Seq<char>, elapsed: Seq<char>)
    ensures
        plain(report_layout(url, status, elapsed)) == url + ", status: "@ + status
            + ", timeout: "@ + elapsed,
{
    let line = report_layout(url, status, elapsed);
    reveal_with_fuel(plain, 6);
    assert(line.drop_last().drop_last().drop_last().drop_last().drop_last() =~= Seq::<
        SpanView,
    >::empty());
    assert(plain(line) =~= url + ", status: "@ + status + ", timeout: "@ + elapsed);
}

} // verus!
