use readiness_probe::outcome::{encode, ProbeOutcome, Response, STATUS_FAILED, STATUS_READY};

#[test]
fn ready_is_reported_with_200() {
    let response = encode(&ProbeOutcome::Ready);
    assert_eq!(response, Response { status: 200, message: "Database is ready!".to_string() });
}

#[test]
fn connect_failure_is_reported_with_500_and_its_detail() {
    let outcome = ProbeOutcome::ConnectFailed("connection refused".to_string());
    assert_eq!(
        encode(&outcome),
        Response {
            status: 500,
            message: "Error connecting to database: connection refused".to_string(),
        }
    );
}

#[test]
fn query_failure_is_reported_with_500_and_its_detail() {
    let outcome = ProbeOutcome::QueryFailed("db error: shutting down".to_string());
    assert_eq!(
        encode(&outcome),
        Response {
            status: 500,
            message: "Error checking database: db error: shutting down".to_string(),
        }
    );
}

#[test]
fn timeout_is_reported_with_500() {
    assert_eq!(
        encode(&ProbeOutcome::TimedOut),
        Response {
            status: 500,
            message: "Database did not become available within 5 minutes.".to_string(),
        }
    );
}

#[test]
fn an_empty_detail_leaves_the_prefix_alone() {
    let outcome = ProbeOutcome::ConnectFailed(String::new());
    assert_eq!(outcome.message(), "Error connecting to database: ");
    let outcome = ProbeOutcome::QueryFailed(String::new());
    assert_eq!(outcome.message(), "Error checking database: ");
}

#[test]
fn status_and_message_agree_with_the_response() {
    let outcomes = [
        ProbeOutcome::Ready,
        ProbeOutcome::ConnectFailed("a".to_string()),
        ProbeOutcome::QueryFailed("b".to_string()),
        ProbeOutcome::TimedOut,
    ];
    for outcome in outcomes {
        let response = encode(&outcome);
        assert_eq!(response.status, outcome.status());
        assert_eq!(response.message, outcome.message());
    }
    assert_eq!(STATUS_READY, 200);
    assert_eq!(STATUS_FAILED, 500);
    assert_eq!(ProbeOutcome::Ready.status(), 200);
    assert_eq!(ProbeOutcome::TimedOut.status(), 500);
}
