use http_checker::{
    plain_text, read_url_lines, report_line, verdict, Batch, HttpCheckerError, Outcome, Status,
    Timeout,
};

/// Two URLs under a timeout of two seconds. The first is answered with 200
/// at once; the second would answer after five seconds and is given up on
/// when the timeout expires.
#[test]
fn quick_answer_and_slow_answer_under_two_seconds() {
    let timeout = Timeout::parse("2s").unwrap();
    let urls = vec![
        "http://localhost:8080/ok".to_string(),
        "http://localhost:8080/slow".to_string(),
    ];
    let mut batch = Batch::new(urls, timeout);
    let requests = batch.requests();
    assert_eq!(requests.len(), 2);
    assert_eq!(requests[0].timeout.nanos(), 2_000_000_000);
    assert_eq!(requests[1].timeout.nanos(), 2_000_000_000);

    assert_eq!(batch.record(0, 12_000_000, Ok(200)), Ok(()));
    assert!(!batch.is_complete());
    assert_eq!(batch.record(1, 2_001_000_000, Err("operation timed out".to_string())), Ok(()));
    assert!(batch.is_complete());

    let results = batch.finish().unwrap();
    assert_eq!(results.len(), 2);
    assert_eq!(results[0].outcome, Outcome::Success(Status::new(200).unwrap()));
    assert!(results[0].elapsed_nanos < timeout.nanos());
    assert_eq!(results[1].outcome, Outcome::Failure("operation timed out".to_string()));

    let lines: Vec<String> = results.iter().map(|result| plain_text(&report_line(result))).collect();
    assert_eq!(
        lines,
        vec![
            "http://localhost:8080/ok, status: 200 OK, timeout: 12ms".to_string(),
            "http://localhost:8080/slow, status: operation timed out, timeout: 2s 1ms".to_string(),
        ]
    );
    assert_eq!(
        verdict(&results),
        Err(HttpCheckerError::Reqwest("operation timed out".to_string()))
    );
}

/// The URLs of a file with white space around them are checked as the same
/// URLs given directly.
#[test]
fn urls_from_a_file_make_the_same_batch_as_urls_given_directly() {
    let direct = vec!["http://a.example".to_string(), "http://b.example".to_string()];
    let from_file = read_url_lines("  http://a.example \n\thttp://b.example\t\n");
    assert_eq!(from_file, direct);
    let timeout = Timeout::default();
    assert_eq!(Batch::new(from_file, timeout).requests(), Batch::new(direct, timeout).requests());
}

/// A timeout outside the accepted range stops a run before any batch exists.
#[test]
fn timeout_out_of_range_comes_before_any_request() {
    assert!(Timeout::parse("0s").is_err());
    assert!(Timeout::parse("15min").is_err());
}

/// An answer with a status above the classes of HTTP is an answer: it is
/// reported with its number, and the run ends well.
#[test]
fn answer_with_status_999_is_reported_as_an_answer() {
    let mut batch = Batch::new(vec!["http://odd.example".to_string()], Timeout::default());
    assert_eq!(batch.record(0, 5_000_000, Ok(999)), Ok(()));
    let results = batch.finish().unwrap();
    assert_eq!(results[0].outcome, Outcome::Success(Status::new(999).unwrap()));
    assert_eq!(
        plain_text(&report_line(&results[0])),
        "http://odd.example, status: 999 <unknown status code>, timeout: 5ms"
    );
    assert_eq!(verdict(&results), Ok(()));
}
