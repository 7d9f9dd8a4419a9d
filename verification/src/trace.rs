//! Whole runs of a probe: what a sequence of events leads to, and what
//! holds of every run.

use vstd::prelude::*;
use crate::outcome::{status_of, OutcomeView, ResponseView, STATUS_FAILED, STATUS_READY};
use crate::params::{connection_string_of, ParamsView};
use crate::probe::{
    answers, initial, pending, step_of, ActionView, EventView, PhaseView, ProbeView,
    INTERVAL_SECONDS, MAX_CHECKS, TIMEOUT_SECONDS,
};

verus! {

/// The probe after it has taken in a sequence of events, first to last.
pub open spec fn run(probe: ProbeView, events: Seq<EventView>) -> ProbeView
    decreases events.len(),
{
    if events.len() == 0 {
        probe
    } else {
        step_of(run(probe, events.drop_last()), events.last())
    }
}

/// How many liveness checks the probe takes in over a sequence of events:
/// the events that report a check while one is outstanding.
pub open spec fn checks_made(probe: ProbeView, events: Seq<EventView>) -> nat
    decreases events.len(),
{
    if events.len() == 0 {
        0
    } else {
        let before = run(probe, events.drop_last());
        let counted: nat = if before.phase is Checking && events.last() is Checked {
            1
        } else {
            0
        };
        checks_made(probe, events.drop_last()) + counted
    }
}

/// How many interval sleeps the probe takes in over a sequence of events.
pub open spec fn sleeps_made(probe: ProbeView, events: Seq<EventView>) -> nat
    decreases events.len(),
{
    if events.len() == 0 {
        0
    } else {
        let before = run(probe, events.drop_last());
        let counted: nat = if before.phase is Sleeping && events.last() is Slept {
            1
        } else {
            0
        };
        sleeps_made(probe, events.drop_last()) + counted
    }
}

/// How many liveness checks a probe can still make.
pub open spec fn checks_left(probe: ProbeView) -> nat {
    match probe.phase {
        PhaseView::Connecting => MAX_CHECKS as nat,
        PhaseView::Checking => ((TIMEOUT_SECONDS - probe.elapsed) / (INTERVAL_SECONDS as int)) as nat,
        PhaseView::Sleeping => ((TIMEOUT_SECONDS - probe.elapsed) / (INTERVAL_SECONDS as int)
            - 1) as nat,
        PhaseView::Done(_) => 0,
    }
}

/// What one liveness query gave: the number of rows it returned, or the
/// driver's description of why it failed.
pub type QueryResult = Result<nat, Seq<char>>;

/// The event that reports a liveness query, read as
/// [`check_database`](crate::probe::check_database) reads it: ready where
/// the query succeeded, not ready yet where it failed.
pub open spec fn checked(query: QueryResult) -> EventView {
    EventView::Checked(Ok(query is Ok))
}

/// The events of as many polling rounds as there are queries: each round
/// is the check that reports its query, followed by the interval sleep.
pub open spec fn rounds(queries: Seq<QueryResult>) -> Seq<EventView>
    decreases queries.len(),
{
    if queries.len() == 0 {
        Seq::empty()
    } else {
        rounds(queries.drop_last()).push(checked(queries.last())).push(EventView::Slept)
    }
}

/// Whether every one of a sequence of queries failed.
pub open spec fn all_failed(queries: Seq<QueryResult>) -> bool {
    forall|i: int| 0 <= i < queries.len() ==> queries[i] is Err
}

/// A probe whose connect attempt has just succeeded.
pub open spec fn connected(params: ParamsView) -> ProbeView {
    step_of(initial(params), EventView::Connected)
}

/// Whether two events are of one kind: the same thing happened, whatever
/// the descriptions say.
pub open spec fn same_kind(a: EventView, b: EventView) -> bool {
    match (a, b) {
        (EventView::Connected, EventView::Connected) => true,
        (EventView::ConnectFailed(_), EventView::ConnectFailed(_)) => true,
        (EventView::Checked(Ok(x)), EventView::Checked(Ok(y))) => x == y,
        (EventView::Checked(Err(_)), EventView::Checked(Err(_))) => true,
        (EventView::Slept, EventView::Slept) => true,
        _ => false,
    }
}

/// Whether two outcomes are of one class.
pub open spec fn same_class(a: OutcomeView, b: OutcomeView) -> bool {
    match (a, b) {
        (OutcomeView::Ready, OutcomeView::Ready) => true,
        (OutcomeView::ConnectFailed(_), OutcomeView::ConnectFailed(_)) => true,
        (OutcomeView::QueryFailed(_), OutcomeView::QueryFailed(_)) => true,
        (OutcomeView::TimedOut, OutcomeView::TimedOut) => true,
        _ => false,
    }
}

/// Whether two probes stand at the same point: the same phase after the
/// same time, and, if they are over, outcomes of one class.
pub open spec fn same_standing(a: ProbeView, b: ProbeView) -> bool {
    &&& a.elapsed == b.elapsed
    &&& match (a.phase, b.phase) {
        (PhaseView::Connecting, PhaseView::Connecting) => true,
        (PhaseView::Checking, PhaseView::Checking) => true,
        (PhaseView::Sleeping, PhaseView::Sleeping) => true,
        (PhaseView::Done(x), PhaseView::Done(y)) => same_class(x, y),
        _ => false,
    }
}

/// Taking in one more event is one more step.
pub proof fn run_push(probe: ProbeView, events: Seq<EventView>, event: EventView)
    ensures
        run(probe, events.push(event)) == step_of(run(probe, events), event),
        checks_made(probe, events.push(event)) == checks_made(probe, events) + (if run(
            probe,
            events,
        ).phase is Checking && event is Checked {
            1nat
        } else {
            0nat
        }),
        sleeps_made(probe, events.push(event)) == sleeps_made(probe, events) + (if run(
            probe,
            events,
        ).phase is Sleeping && event is Slept {
            1nat
        } else {
            0nat
        }),
{
    assert(events.push(event).drop_last() =~= events);
    assert(events.push(event).last() == event);
}

/// An event that answers the pending action moves the probe on; any other
/// event changes nothing.
pub proof fn only_answers_move_the_probe(probe: ProbeView, event: EventView)
    ensures
        answers(probe, event) <==> step_of(probe, event) != probe,
{
}

/// The invariant of a probe holds after every step.
pub proof fn step_keeps_invariant(probe: ProbeView, event: EventView)
    requires
        probe.wf(),
    ensures
        step_of(probe, event).wf(),
        step_of(probe, event).params == probe.params,
{
}

/// The invariant of a probe holds throughout every run, and the
/// parameters never change.
pub proof fn run_keeps_invariant(probe: ProbeView, events: Seq<EventView>)
    requires
        probe.wf(),
    ensures
        run(probe, events).wf(),
        run(probe, events).params == probe.params,
    decreases events.len(),
{
    if events.len() > 0 {
        run_keeps_invariant(probe, events.drop_last());
        step_keeps_invariant(run(probe, events.drop_last()), events.last());
    }
}

/// A probe that is over stays as it is, whatever is reported to it: it
/// asks for no further connect, query or sleep.
pub proof fn done_is_final(probe: ProbeView, events: Seq<EventView>)
    requires
        probe.done(),
    ensures
        run(probe, events) == probe,
        checks_made(probe, events) == 0,
        sleeps_made(probe, events) == 0,
        pending(probe) is Respond,
    decreases events.len(),
{
    if events.len() > 0 {
        done_is_final(probe, events.drop_last());
    }
}

/// Where the database accepts the connection and the first liveness query
/// at once, the outcome is `Ready`, reported with status 200, and no time
/// has been slept: the probe asked for the connect, then for one query,
/// then for the response.
pub proof fn ready_at_first_check(params: ParamsView, rows: nat)
    ensures
        ({
            let events = seq![EventView::Connected, checked(Ok(rows))];
            let start = initial(params);
            let polling = step_of(start, EventView::Connected);
            let end = run(start, events);
            &&& pending(start) == ActionView::Connect(connection_string_of(params))
            &&& pending(polling) is Query
            &&& end == step_of(polling, checked(Ok(rows)))
            &&& end.phase == PhaseView::Done(OutcomeView::Ready)
            &&& end.elapsed == 0
            &&& pending(end) == ActionView::Respond(
                ResponseView { status: STATUS_READY, message: "Database is ready!"@ },
            )
            &&& sleeps_made(start, events) == 0
            &&& checks_made(start, events) == 1
        }),
{
    let start = initial(params);
    let first = Seq::<EventView>::empty().push(EventView::Connected);
    let both = first.push(checked(Ok(rows)));
    run_push(start, Seq::empty(), EventView::Connected);
    run_push(start, first, checked(Ok(rows)));
    assert(both =~= seq![EventView::Connected, checked(Ok(rows))]);
}

/// Where the connect attempt fails, the outcome is `ConnectFailed` with
/// the driver's description, reported with status 500, and polling never
/// starts: whatever is reported afterwards, no check and no sleep is
/// taken in.
pub proof fn connect_failure_ends_probe(
    params: ParamsView,
    detail: Seq<char>,
    later: Seq<EventView>,
)
    ensures
        ({
            let start = initial(params);
            let end = step_of(start, EventView::ConnectFailed(detail));
            &&& end.phase == PhaseView::Done(OutcomeView::ConnectFailed(detail))
            &&& end.elapsed == 0
            &&& pending(end) == ActionView::Respond(
                ResponseView {
                    status: STATUS_FAILED,
                    message: "Error connecting to database: "@ + detail,
                },
            )
            &&& run(end, later) == end
            &&& checks_made(end, later) == 0
            &&& sleeps_made(end, later) == 0
        }),
{
    let end = step_of(initial(params), EventView::ConnectFailed(detail));
    done_is_final(end, later);
}

/// Elapsed-time accounting over rounds in which the query failed. A probe
/// that is about to check and then sees one such round per query has slept
/// five seconds per round; it is about to check again while that stays
/// under the timeout, and has timed out at 300 seconds exactly once it
/// does not. Rounds reported after the timeout change nothing, and no
/// check beyond the last one in time is taken in.
pub proof fn failed_rounds_accounting(probe: ProbeView, queries: Seq<QueryResult>)
    requires
        probe.wf(),
        probe.phase is Checking,
        all_failed(queries),
    ensures
        ({
            let end = run(probe, rounds(queries));
            let left = checks_left(probe);
            &&& end.params == probe.params
            &&& queries.len() < left ==> end.phase is Checking && end.elapsed == probe.elapsed
                + INTERVAL_SECONDS * queries.len()
            &&& queries.len() >= left ==> end.phase == PhaseView::Done(OutcomeView::TimedOut)
                && end.elapsed == TIMEOUT_SECONDS
            &&& checks_made(probe, rounds(queries)) == if queries.len() < left {
                queries.len()
            } else {
                left
            }
            &&& sleeps_made(probe, rounds(queries)) == checks_made(probe, rounds(queries))
        }),
    decreases queries.len(),
{
    if queries.len() > 0 {
        let before = rounds(queries.drop_last());
        failed_rounds_accounting(probe, queries.drop_last());
        run_push(probe, before, checked(queries.last()));
        run_push(probe, before.push(checked(queries.last())), EventView::Slept);
    }
}

/// Sixty rounds, and no more. A freshly connected probe whose liveness
/// query fails on every attempt polls for the whole 300 seconds: after
/// fewer than 60 failed rounds it is about to check again, after exactly
/// 60 (60 × 5 s = 300 s) it has timed out, with status 500, and however
/// many more are reported it has made 60 checks.
pub proof fn failing_queries_exhaust_the_timeout(params: ParamsView, queries: Seq<QueryResult>)
    requires
        all_failed(queries),
    ensures
        ({
            let start = connected(params);
            let end = run(start, rounds(queries));
            &&& queries.len() < 60 ==> end.phase is Checking && end.elapsed == 5 * queries.len()
            &&& queries.len() >= 60 ==> end.phase == PhaseView::Done(OutcomeView::TimedOut)
                && end.elapsed == 300
            &&& queries.len() >= 60 ==> pending(end) == ActionView::Respond(
                ResponseView {
                    status: STATUS_FAILED,
                    message: "Database did not become available within 5 minutes."@,
                },
            )
            &&& checks_made(start, rounds(queries)) == if queries.len() < 60 {
                queries.len()
            } else {
                60
            }
        }),
{
    failed_rounds_accounting(connected(params), queries);
}

/// No run makes more checks than the probe had left, and so none makes
/// more than 60; every sleep adds five seconds to the elapsed time.
pub proof fn checks_are_bounded(probe: ProbeView, events: Seq<EventView>)
    requires
        probe.wf(),
    ensures
        checks_made(probe, events) + checks_left(run(probe, events)) <= checks_left(probe),
        checks_made(probe, events) <= MAX_CHECKS,
        run(probe, events).elapsed == probe.elapsed + INTERVAL_SECONDS * sleeps_made(
            probe,
            events,
        ),
    decreases events.len(),
{
    if events.len() > 0 {
        checks_are_bounded(probe, events.drop_last());
        run_keeps_invariant(probe, events.drop_last());
    }
}

/// One step from the same standing on events of one kind leads to the
/// same standing.
pub proof fn step_depends_on_kind(a: ProbeView, b: ProbeView, x: EventView, y: EventView)
    requires
        same_standing(a, b),
        same_kind(x, y),
    ensures
        same_standing(step_of(a, x), step_of(b, y)),
{
}

/// Repeating a probe against an unchanged database gives an outcome of
/// the same class. Two probes that start alike and are told of the same
/// kinds of events, one after the other, stand alike at the end: same
/// phase, same elapsed time, same class of outcome and same status. A
/// probe's course depends on nothing but what is reported to it.
pub proof fn repeat_gives_same_outcome(
    a: ProbeView,
    b: ProbeView,
    first: Seq<EventView>,
    second: Seq<EventView>,
)
    requires
        same_standing(a, b),
        first.len() == second.len(),
        forall|i: int| 0 <= i < first.len() ==> same_kind(#[trigger] first[i], second[i]),
    ensures
        same_standing(run(a, first), run(b, second)),
        run(a, first).phase matches PhaseView::Done(x) ==> run(b, second).phase matches PhaseView::Done(y)
            && status_of(x) == status_of(y),
    decreases first.len(),
{
    if first.len() > 0 {
        repeat_gives_same_outcome(a, b, first.drop_last(), second.drop_last());
        step_depends_on_kind(
            run(a, first.drop_last()),
            run(b, second.drop_last()),
            first.last(),
            second.last(),
        );
    }
}

} // verus!
