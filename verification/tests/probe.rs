use readiness_probe::outcome::{ProbeOutcome, Response};
use readiness_probe::params::ConnectionParameters;
use readiness_probe::probe::{
    check_database, Action, Event, Probe, INTERVAL_SECONDS, LIVENESS_QUERY, MAX_CHECKS,
    TIMEOUT_SECONDS,
};

fn sample() -> ConnectionParameters {
    ConnectionParameters {
        host: "db.internal".to_string(),
        port: "5432".to_string(),
        user: "probe".to_string(),
        password: "s3cret".to_string(),
        database: "orders".to_string(),
    }
}

/// What a scripted run of a probe did.
struct Run {
    response: Response,
    connects: Vec<String>,
    queries: Vec<String>,
    slept: Vec<u64>,
    elapsed: u64,
    outcome: ProbeOutcome,
}

/// Plays the caller's part against a scripted database: the connect
/// attempt ends as `connect` says, and the liveness queries end as
/// `queries` say, in order. Panics if the probe asks for more queries than
/// the script holds.
fn drive(connect: Result<(), String>, queries: Vec<Result<usize, String>>) -> Run {
    let mut probe = Probe::new(sample());
    let mut script = queries.into_iter();
    let mut connects = Vec::new();
    let mut asked = Vec::new();
    let mut slept = Vec::new();
    let mut action = probe.action();
    loop {
        let event = match action {
            Action::Connect(text) => {
                connects.push(text);
                match &connect {
                    Ok(()) => Event::Connected,
                    Err(detail) => Event::ConnectFailed(detail.clone()),
                }
            }
            Action::Query(sql) => {
                asked.push(sql.to_string());
                match script.next() {
                    Some(result) => Event::Checked(check_database(result)),
                    None => panic!("the probe asked for query {}", asked.len()),
                }
            }
            Action::Sleep(seconds) => {
                slept.push(seconds);
                Event::Slept
            }
            Action::Respond(response) => {
                let outcome = match probe.outcome() {
                    Some(outcome) => outcome.clone(),
                    None => panic!("a response without an outcome"),
                };
                return Run {
                    response,
                    connects,
                    queries: asked,
                    slept,
                    elapsed: probe.elapsed_seconds(),
                    outcome,
                };
            }
        };
        action = probe.step(event);
    }
}

fn failing(times: usize) -> Vec<Result<usize, String>> {
    (0..times).map(|attempt| Err(format!("db error: starting up ({})", attempt))).collect()
}

#[test]
fn constants_are_five_seconds_and_five_minutes() {
    assert_eq!(INTERVAL_SECONDS, 5);
    assert_eq!(TIMEOUT_SECONDS, 300);
    assert_eq!(MAX_CHECKS, 60);
    assert_eq!(MAX_CHECKS * INTERVAL_SECONDS, TIMEOUT_SECONDS);
    assert_eq!(LIVENESS_QUERY, "SELECT 1");
}

#[test]
fn check_database_reads_success_as_ready() {
    assert_eq!(check_database(Ok(1)), Ok(true));
    assert_eq!(check_database(Ok(0)), Ok(true));
    assert_eq!(check_database(Ok(250)), Ok(true));
}

#[test]
fn check_database_reads_failure_as_not_ready() {
    assert_eq!(check_database(Err("db error".to_string())), Ok(false));
    assert_eq!(check_database(Err(String::new())), Ok(false));
}

#[test]
fn a_new_probe_asks_for_the_connect() {
    let probe = Probe::new(sample());
    assert!(
        probe.action()
            == Action::Connect(
                "host=db.internal port=5432 user=probe password=s3cret dbname=orders".to_string()
            )
    );
    assert_eq!(probe.elapsed_seconds(), 0);
    assert!(probe.outcome().is_none());
    assert!(*probe.parameters() == sample());
}

#[test]
fn ready_at_once_without_a_sleep() {
    let run = drive(Ok(()), vec![Ok(1)]);
    assert_eq!(run.outcome, ProbeOutcome::Ready);
    assert_eq!(run.response, Response { status: 200, message: "Database is ready!".to_string() });
    assert_eq!(run.connects.len(), 1);
    assert_eq!(run.queries, vec!["SELECT 1".to_string()]);
    assert!(run.slept.is_empty());
    assert_eq!(run.elapsed, 0);
}

#[test]
fn connect_failure_ends_the_probe_before_polling() {
    let run = drive(Err("connection refused".to_string()), vec![Ok(1)]);
    assert_eq!(run.outcome, ProbeOutcome::ConnectFailed("connection refused".to_string()));
    assert_eq!(
        run.response,
        Response {
            status: 500,
            message: "Error connecting to database: connection refused".to_string(),
        }
    );
    assert_eq!(run.connects.len(), 1);
    assert!(run.queries.is_empty());
    assert!(run.slept.is_empty());
    assert_eq!(run.elapsed, 0);
}

#[test]
fn queries_that_always_fail_exhaust_the_timeout() {
    let run = drive(Ok(()), failing(100));
    assert_eq!(run.outcome, ProbeOutcome::TimedOut);
    assert_eq!(
        run.response,
        Response {
            status: 500,
            message: "Database did not become available within 5 minutes.".to_string(),
        }
    );
    assert_eq!(run.connects.len(), 1);
    assert_eq!(run.queries.len(), 60);
    assert_eq!(run.slept, vec![5u64; 60]);
    assert_eq!(run.slept.iter().sum::<u64>(), 300);
    assert_eq!(run.elapsed, 300);
}

#[test]
fn exactly_sixty_idle_rounds_time_out() {
    let run = drive(Ok(()), failing(60));
    assert_eq!(run.outcome, ProbeOutcome::TimedOut);
    assert_eq!(run.queries.len(), 60);
    assert_eq!(run.slept.len(), 60);
    assert_eq!(run.elapsed, 300);
}

#[test]
fn ready_at_the_last_check_in_time() {
    let mut script = failing(59);
    script.push(Ok(1));
    let run = drive(Ok(()), script);
    assert_eq!(run.outcome, ProbeOutcome::Ready);
    assert_eq!(run.response.status, 200);
    assert_eq!(run.queries.len(), 60);
    assert_eq!(run.slept.len(), 59);
    assert_eq!(run.elapsed, 295);
}

#[test]
fn ready_after_a_few_idle_rounds() {
    let mut script = failing(3);
    script.push(Ok(0));
    let run = drive(Ok(()), script);
    assert_eq!(run.outcome, ProbeOutcome::Ready);
    assert_eq!(run.queries.len(), 4);
    assert_eq!(run.slept, vec![5, 5, 5]);
    assert_eq!(run.elapsed, 15);
}

#[test]
fn elapsed_time_is_five_seconds_per_sleep() {
    let mut probe = Probe::new(sample());
    assert!(probe.step(Event::Connected) == Action::Query("SELECT 1"));
    for round in 0..59u64 {
        assert_eq!(probe.elapsed_seconds(), 5 * round);
        assert!(probe.step(Event::Checked(Ok(false))) == Action::Sleep(5));
        assert_eq!(probe.elapsed_seconds(), 5 * round);
        assert!(probe.step(Event::Slept) == Action::Query("SELECT 1"));
        assert_eq!(probe.elapsed_seconds(), 5 * (round + 1));
        assert!(probe.outcome().is_none());
    }
    assert_eq!(probe.elapsed_seconds(), 295);
    assert!(probe.step(Event::Checked(Ok(false))) == Action::Sleep(5));
    let last = probe.step(Event::Slept);
    assert!(
        last == Action::Respond(Response {
            status: 500,
            message: "Database did not become available within 5 minutes.".to_string(),
        })
    );
    assert_eq!(probe.elapsed_seconds(), 300);
    assert_eq!(probe.outcome(), Some(&ProbeOutcome::TimedOut));
}

#[test]
fn a_fatal_check_ends_the_probe_with_its_detail() {
    let mut probe = Probe::new(sample());
    probe.step(Event::Connected);
    probe.step(Event::Checked(Ok(false)));
    probe.step(Event::Slept);
    let action = probe.step(Event::Checked(Err("db error: role does not exist".to_string())));
    assert!(
        action == Action::Respond(Response {
            status: 500,
            message: "Error checking database: db error: role does not exist".to_string(),
        })
    );
    assert_eq!(
        probe.outcome(),
        Some(&ProbeOutcome::QueryFailed("db error: role does not exist".to_string()))
    );
    assert_eq!(probe.elapsed_seconds(), 5);
}

#[test]
fn an_event_that_answers_nothing_changes_nothing() {
    let mut probe = Probe::new(sample());
    let connect = probe.action();
    assert!(probe.step(Event::Slept) == connect);
    assert!(probe.step(Event::Checked(Ok(true))) == connect);
    assert!(probe.outcome().is_none());
    assert!(probe.step(Event::Connected) == Action::Query("SELECT 1"));
    assert!(probe.step(Event::Connected) == Action::Query("SELECT 1"));
    assert!(probe.step(Event::ConnectFailed("late".to_string())) == Action::Query("SELECT 1"));
    assert!(probe.step(Event::Slept) == Action::Query("SELECT 1"));
    assert_eq!(probe.elapsed_seconds(), 0);
    assert!(probe.step(Event::Checked(Ok(false))) == Action::Sleep(5));
    assert!(probe.step(Event::Checked(Ok(true))) == Action::Sleep(5));
    assert!(probe.step(Event::Connected) == Action::Sleep(5));
    assert_eq!(probe.elapsed_seconds(), 0);
    assert!(probe.outcome().is_none());
}

#[test]
fn a_finished_probe_stays_finished() {
    let mut probe = Probe::new(sample());
    probe.step(Event::Connected);
    let done = probe.step(Event::Checked(Ok(true)));
    assert!(done == Action::Respond(Response { status: 200, message: "Database is ready!".to_string() }));
    for event in [
        Event::Connected,
        Event::ConnectFailed("x".to_string()),
        Event::Checked(Ok(false)),
        Event::Checked(Err("y".to_string())),
        Event::Slept,
    ] {
        assert!(probe.step(event) == done);
        assert!(probe.action() == done);
        assert_eq!(probe.outcome(), Some(&ProbeOutcome::Ready));
        assert_eq!(probe.elapsed_seconds(), 0);
    }
}

#[test]
fn repeating_a_probe_gives_the_same_outcome() {
    for script in [vec![Ok(1)], failing(60), { let mut s = failing(7); s.push(Ok(2)); s }] {
        let first = drive(Ok(()), script.clone());
        let second = drive(Ok(()), script);
        assert_eq!(first.outcome, second.outcome);
        assert_eq!(first.response, second.response);
        assert_eq!(first.queries, second.queries);
        assert_eq!(first.slept, second.slept);
        assert_eq!(first.elapsed, second.elapsed);
    }
    let first = drive(Err("no route to host".to_string()), vec![]);
    let second = drive(Err("no route to host".to_string()), vec![]);
    assert_eq!(first.outcome, second.outcome);
    assert_eq!(first.response, second.response);
}

#[test]
fn the_outcome_class_does_not_depend_on_the_details() {
    let first = drive(Err("connection refused".to_string()), vec![]);
    let second = drive(Err("password authentication failed".to_string()), vec![]);
    assert!(matches!(first.outcome, ProbeOutcome::ConnectFailed(_)));
    assert!(matches!(second.outcome, ProbeOutcome::ConnectFailed(_)));
    assert_eq!(first.response.status, second.response.status);
    let mut quiet = vec![Err(String::new()); 2];
    quiet.push(Ok(0));
    let mut loud = failing(2);
    loud.push(Ok(9));
    let first = drive(Ok(()), quiet);
    let second = drive(Ok(()), loud);
    assert_eq!(first.outcome, second.outcome);
    assert_eq!(first.elapsed, second.elapsed);
    assert_eq!(first.response, second.response);
}
