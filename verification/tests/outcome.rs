use http_checker::{CheckResult, Outcome, Status};

fn success(code: u16) -> Outcome {
    Outcome::Success(Status::new(code).unwrap())
}

#[test]
fn status_accepts_100_to_999() {
    assert!(Status::new(0).is_none());
    assert!(Status::new(99).is_none());
    assert_eq!(Status::new(100).unwrap().code(), 100);
    assert_eq!(Status::new(200).unwrap().code(), 200);
    assert_eq!(Status::new(599).unwrap().code(), 599);
    assert_eq!(Status::new(600).unwrap().code(), 600);
    assert_eq!(Status::new(999).unwrap().code(), 999);
    assert!(Status::new(1000).is_none());
    assert!(Status::new(u16::MAX).is_none());
}

#[test]
fn answer_is_success_with_the_status_given() {
    assert_eq!(Outcome::from_response(Ok(200)), success(200));
    assert_eq!(Outcome::from_response(Ok(100)), success(100));
    assert_eq!(Outcome::from_response(Ok(301)), success(301));
    assert_eq!(Outcome::from_response(Ok(599)), success(599));
}

#[test]
fn client_and_server_errors_are_successes() {
    assert_eq!(Outcome::from_response(Ok(404)), success(404));
    assert_eq!(Outcome::from_response(Ok(500)), success(500));
    assert!(Outcome::from_response(Ok(404)).is_success());
    assert!(Outcome::from_response(Ok(503)).is_success());
}

#[test]
fn every_status_code_is_a_success() {
    for code in 100u16..=999 {
        assert_eq!(Outcome::from_response(Ok(code)), success(code));
    }
}

#[test]
fn transport_error_is_failure_with_its_description() {
    let outcome = Outcome::from_response(Err("connection refused".to_string()));
    assert_eq!(outcome, Outcome::Failure("connection refused".to_string()));
    assert!(!outcome.is_success());
}

#[test]
fn timeout_is_failure() {
    let outcome = Outcome::from_response(Err("operation timed out".to_string()));
    assert_eq!(outcome, Outcome::Failure("operation timed out".to_string()));
}

#[test]
fn number_that_is_no_status_is_failure() {
    let expected = Outcome::Failure("status code outside 100-999".to_string());
    assert_eq!(Outcome::from_response(Ok(0)), expected);
    assert_eq!(Outcome::from_response(Ok(99)), expected);
    assert_eq!(Outcome::from_response(Ok(1000)), expected);
    assert_eq!(Outcome::from_response(Ok(u16::MAX)), expected);
}

#[test]
fn status_without_a_class_is_a_success() {
    assert_eq!(Outcome::from_response(Ok(600)), success(600));
    assert_eq!(Outcome::from_response(Ok(999)), success(999));
    assert!(Outcome::from_response(Ok(999)).is_success());
}

#[test]
fn result_keeps_url_and_elapsed_time() {
    let result = CheckResult::from_response("http://example.com/a b".to_string(), 1_234_567, Ok(204));
    assert_eq!(result.url, "http://example.com/a b");
    assert_eq!(result.elapsed_nanos, 1_234_567);
    assert_eq!(result.outcome, success(204));
}

#[test]
fn failed_result_keeps_url_and_elapsed_time() {
    let result = CheckResult::from_response("nonsense".to_string(), 42, Err("builder error".to_string()));
    assert_eq!(
        result,
        CheckResult {
            url: "nonsense".to_string(),
            elapsed_nanos: 42,
            outcome: Outcome::Failure("builder error".to_string()),
        }
    );
}
