use http_checker::trace::{layout_finished, layout_started, stamp_label};
use http_checker::{plain_text, Color, Outcome, Span, Status, Timestamp, Tracer};

fn span(text: &str, color: Color) -> Span {
    Span { text: text.to_string(), color }
}

const EPOCH: Timestamp = Timestamp { seconds: 0, nanos: 0 };

#[test]
fn quiet_run_traces_nothing() {
    let tracer = Tracer { verbose: false };
    assert_eq!(tracer.started(EPOCH, "http://a"), None);
    assert_eq!(tracer.finished(EPOCH, "http://a", &Outcome::Failure("refused".to_string())), None);
    assert_eq!(
        tracer.finished(EPOCH, "http://a", &Outcome::Success(Status::new(200).unwrap())),
        None
    );
}

#[test]
fn verbose_run_traces_the_start() {
    let tracer = Tracer { verbose: true };
    let line = tracer.started(EPOCH, "http://a").unwrap();
    assert_eq!(
        line,
        vec![
            span("[", Color::Plain),
            span("1970-01-01T00:00:00+00:00", Color::Red),
            span("] Starting request to ", Color::Plain),
            span("http://a", Color::Red),
            span(".", Color::Plain),
        ]
    );
    assert_eq!(plain_text(&line), "[1970-01-01T00:00:00+00:00] Starting request to http://a.");
}

#[test]
fn verbose_run_traces_an_answer() {
    let tracer = Tracer { verbose: true };
    let at = Timestamp { seconds: 1_700_000_000, nanos: 250_000_000 };
    let line = tracer
        .finished(at, "http://a", &Outcome::Success(Status::new(404).unwrap()))
        .unwrap();
    assert_eq!(
        line,
        vec![
            span("[", Color::Plain),
            span("2023-11-14T22:13:20.250+00:00", Color::Red),
            span("] Request to ", Color::Plain),
            span("http://a", Color::Red),
            span(" finished with status ", Color::Plain),
            span("404 Not Found", Color::Red),
            span(".", Color::Plain),
        ]
    );
    assert_eq!(
        plain_text(&line),
        "[2023-11-14T22:13:20.250+00:00] Request to http://a finished with status 404 Not Found."
    );
}

#[test]
fn verbose_run_traces_a_failure() {
    let tracer = Tracer { verbose: true };
    let at = Timestamp { seconds: 1_700_000_000, nanos: 1 };
    let line = tracer
        .finished(at, "http://a", &Outcome::Failure("operation timed out".to_string()))
        .unwrap();
    assert_eq!(
        line,
        vec![
            span("[", Color::Plain),
            span("2023-11-14T22:13:20.000000001+00:00", Color::Red),
            span("] Request to ", Color::Plain),
            span("http://a", Color::Plain),
            span(" finished with error ", Color::Plain),
            span("operation timed out", Color::Plain),
            span(".", Color::Plain),
        ]
    );
}

#[test]
fn moment_without_a_date_is_unknown_time() {
    let tracer = Tracer { verbose: true };
    let never = Timestamp { seconds: i64::MAX, nanos: 0 };
    assert_eq!(
        plain_text(&tracer.started(never, "http://a").unwrap()),
        "[unknown time] Starting request to http://a."
    );
    let broken = Timestamp { seconds: 0, nanos: u32::MAX };
    assert_eq!(
        plain_text(&tracer.started(broken, "http://a").unwrap()),
        "[unknown time] Starting request to http://a."
    );
}

#[test]
fn stamp_label_falls_back_to_unknown_time() {
    assert_eq!(stamp_label(Some("2024-01-01T00:00:00+00:00".to_string())), "2024-01-01T00:00:00+00:00");
    assert_eq!(stamp_label(None), "unknown time");
}

#[test]
fn layouts_take_any_fields() {
    assert_eq!(plain_text(&layout_started("T", "U")), "[T] Starting request to U.");
    assert_eq!(
        plain_text(&layout_finished("T", "U", true, "200 OK")),
        "[T] Request to U finished with status 200 OK."
    );
    assert_eq!(
        plain_text(&layout_finished("T", "U", false, "refused")),
        "[T] Request to U finished with error refused."
    );
}

#[test]
fn tracing_leaves_the_outcome_as_it_is() {
    let tracer = Tracer { verbose: true };
    let outcome = Outcome::Failure("refused".to_string());
    let before = outcome.clone();
    let _ = tracer.finished(EPOCH, "http://a", &outcome);
    assert_eq!(outcome, before);
}
