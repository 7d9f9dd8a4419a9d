//! The probe as a state machine.
//!
//! A probe connects once, then asks the database a trivial question every
//! five seconds until it answers or five minutes have passed. Connecting,
//! querying and sleeping are the caller's work. The probe decides: it names
//! the next [`Action`], the caller performs it and reports the [`Event`]
//! that resulted, and [`Probe::step`] moves on.
//!
//! A liveness query that fails with a driver error could be read either as
//! fatal or as "not ready yet". Both readings have their place here, and
//! they are kept apart on purpose. [`check_database`] settles the policy:
//! a failed query means *not ready*, and polling goes on, because a
//! database that is still starting may well refuse a query it will accept
//! a moment later. [`Probe::step`] nevertheless honours a fatal check
//! result (`Err`) by ending the probe with `QueryFailed`, so a caller with
//! a stricter check of its own can still report one.

use vstd::prelude::*;
use vstd::string::*;
use crate::decode::{decode, decoded_request, document_of, DecodeError};
use crate::outcome::{encode, response_for, OutcomeView, ProbeOutcome, Response, ResponseView};
use crate::params::{connection_string_of, ConnectionParameters, ParamsView};

verus! {

/// Seconds after which the probe gives up.
pub const TIMEOUT_SECONDS: u64 = 300;

/// Seconds slept between two liveness checks.
pub const INTERVAL_SECONDS: u64 = 5;

/// The most liveness checks one probe can make.
pub const MAX_CHECKS: u64 = 60;

/// The liveness query.
pub const LIVENESS_QUERY: &'static str = "SELECT 1";

/// Interprets the result of one liveness query: the number of rows it
/// returned, or the driver's description of why it failed.
///
/// A query that succeeded means the database is ready, whatever rows came
/// back. A query that failed means it is not ready yet; the failure is not
/// passed on as an error.
pub fn check_database(query: Result<usize, String>) -> (checked: Result<bool, String>)
    ensures
        checked == Ok::<bool, String>(query is Ok),
{
    match query {
        Ok(_) => Ok(true),
        Err(_) => Ok(false),
    }
}

/// What happened to the action that the probe last asked for.
#[derive(Debug, PartialEq, Eq)]
pub enum Event {
    /// The connect attempt succeeded.
    Connected,
    /// The connect attempt failed; carries the driver's description.
    ConnectFailed(String),
    /// A liveness check ended: `Ok(true)` ready, `Ok(false)` not ready yet,
    /// `Err` a fatal error with its description.
    Checked(Result<bool, String>),
    /// One interval has been slept through.
    Slept,
}

/// Mathematical model of an [`Event`].
pub enum EventView {
    Connected,
    ConnectFailed(Seq<char>),
    Checked(Result<bool, Seq<char>>),
    Slept,
}

impl View for Event {
    type V = EventView;

    open spec fn view(&self) -> EventView {
        match self {
            Event::Connected => EventView::Connected,
            Event::ConnectFailed(detail) => EventView::ConnectFailed(detail@),
            Event::Checked(Ok(ready)) => EventView::Checked(Ok(*ready)),
            Event::Checked(Err(detail)) => EventView::Checked(Err(detail@)),
            Event::Slept => EventView::Slept,
        }
    }
}

/// What the caller must do next.
///
/// The type has no `Debug`: a connect action holds the password.
#[derive(Clone, PartialEq, Eq)]
pub enum Action {
    /// Open a plaintext connection with this connection string, once.
    Connect(String),
    /// Run this query on the connection.
    Query(&'static str),
    /// Sleep this many seconds.
    Sleep(u64),
    /// The probe is over: hand this response to the hosting runtime.
    Respond(Response),
}

/// Mathematical model of an [`Action`].
pub enum ActionView {
    Connect(Seq<char>),
    Query(Seq<char>),
    Sleep(nat),
    Respond(ResponseView),
}

impl View for Action {
    type V = ActionView;

    open spec fn view(&self) -> ActionView {
        match self {
            Action::Connect(text) => ActionView::Connect(text@),
            Action::Query(sql) => ActionView::Query(sql@),
            Action::Sleep(seconds) => ActionView::Sleep(*seconds as nat),
            Action::Respond(response) => ActionView::Respond(response@),
        }
    }
}

/// Where a probe stands.
pub enum PhaseView {
    /// The connect attempt is outstanding.
    Connecting,
    /// A liveness check is outstanding.
    Checking,
    /// The last check said "not ready"; an interval sleep is outstanding.
    Sleeping,
    /// The probe is over.
    Done(OutcomeView),
}

/// Mathematical model of a [`Probe`].
pub struct ProbeView {
    /// The parameters, fixed when the probe is made.
    pub params: ParamsView,
    pub phase: PhaseView,
    /// Seconds slept so far.
    pub elapsed: nat,
}

impl ProbeView {
    /// The invariant of a probe: the elapsed time is a multiple of the
    /// interval and never passes the timeout; nothing has been slept before
    /// the connection stands; the probe polls only while time is left; and
    /// it times out at the timeout exactly.
    pub open spec fn wf(self) -> bool {
        &&& self.elapsed % (INTERVAL_SECONDS as nat) == 0
        &&& self.elapsed <= TIMEOUT_SECONDS
        &&& self.phase is Connecting ==> self.elapsed == 0
        &&& self.phase is Checking || self.phase is Sleeping ==> self.elapsed < TIMEOUT_SECONDS
        &&& self.phase == PhaseView::Done(OutcomeView::TimedOut) ==> self.elapsed
            == TIMEOUT_SECONDS
        &&& self.phase matches PhaseView::Done(OutcomeView::ConnectFailed(_)) ==> self.elapsed == 0
    }

    /// Whether the probe is over.
    pub open spec fn done(self) -> bool {
        self.phase is Done
    }
}

/// A probe that has just been made for a set of parameters.
pub open spec fn initial(params: ParamsView) -> ProbeView {
    ProbeView { params, phase: PhaseView::Connecting, elapsed: 0 }
}

/// The action that a probe is waiting for.
pub open spec fn pending(probe: ProbeView) -> ActionView {
    match probe.phase {
        PhaseView::Connecting => ActionView::Connect(connection_string_of(probe.params)),
        PhaseView::Checking => ActionView::Query(LIVENESS_QUERY@),
        PhaseView::Sleeping => ActionView::Sleep(INTERVAL_SECONDS as nat),
        PhaseView::Done(outcome) => ActionView::Respond(response_for(outcome)),
    }
}

/// Whether an event reports on the action that a probe is waiting for.
pub open spec fn answers(probe: ProbeView, event: EventView) -> bool {
    match probe.phase {
        PhaseView::Connecting => event is Connected || event is ConnectFailed,
        PhaseView::Checking => event is Checked,
        PhaseView::Sleeping => event is Slept,
        PhaseView::Done(_) => false,
    }
}

/// The transition rule. An event that does not answer the pending action
/// changes nothing.
pub open spec fn step_of(probe: ProbeView, event: EventView) -> ProbeView {
    match (probe.phase, event) {
        (PhaseView::Connecting, EventView::Connected) => ProbeView {
            phase: PhaseView::Checking,
            ..probe
        },
        (PhaseView::Connecting, EventView::ConnectFailed(detail)) => ProbeView {
            phase: PhaseView::Done(OutcomeView::ConnectFailed(detail)),
            ..probe
        },
        (PhaseView::Checking, EventView::Checked(Ok(true))) => ProbeView {
            phase: PhaseView::Done(OutcomeView::Ready),
            ..probe
        },
        (PhaseView::Checking, EventView::Checked(Ok(false))) => ProbeView {
            phase: PhaseView::Sleeping,
            ..probe
        },
        (PhaseView::Checking, EventView::Checked(Err(detail))) => ProbeView {
            phase: PhaseView::Done(OutcomeView::QueryFailed(detail)),
            ..probe
        },
        (PhaseView::Sleeping, EventView::Slept) => {
            let elapsed = probe.elapsed + INTERVAL_SECONDS as nat;
            ProbeView {
                phase: if elapsed >= TIMEOUT_SECONDS {
                    PhaseView::Done(OutcomeView::TimedOut)
                } else {
                    PhaseView::Checking
                },
                elapsed,
                ..probe
            }
        },
        _ => probe,
    }
}

/// How a probe is held: the phase, and with it the seconds slept so far.
enum State {
    Connecting,
    Checking(u64),
    Sleeping(u64),
    Done(ProbeOutcome, u64),
}

/// One probe: one connect attempt and the polling that follows it. A probe
/// is made per invocation and keeps nothing from any other.
pub struct Probe {
    params: ConnectionParameters,
    state: State,
}

impl View for Probe {
    type V = ProbeView;

    closed spec fn view(&self) -> ProbeView {
        ProbeView {
            params: self.params@,
            phase: match self.state {
                State::Connecting => PhaseView::Connecting,
                State::Checking(_) => PhaseView::Checking,
                State::Sleeping(_) => PhaseView::Sleeping,
                State::Done(outcome, _) => PhaseView::Done(outcome@),
            },
            elapsed: match self.state {
                State::Connecting => 0,
                State::Checking(elapsed) => elapsed as nat,
                State::Sleeping(elapsed) => elapsed as nat,
                State::Done(_, elapsed) => elapsed as nat,
            },
        }
    }
}

impl Probe {
    #[verifier::type_invariant]
    spec fn valid(self) -> bool {
        self@.wf()
    }

    /// Makes the probe for a set of connection parameters. Nothing has been
    /// attempted yet: the first action is the connect.
    pub fn new(params: ConnectionParameters) -> (probe: Probe)
        ensures
            probe@ == initial(params@),
            probe@.wf(),
    {
        Probe { params, state: State::Connecting }
    }

    /// Makes the probe for a request. A request that cannot be decoded
    /// gives no probe, and so no connect attempt.
    pub fn for_request(body: &[u8]) -> (made: Result<Probe, DecodeError>)
        ensures
            match made {
                Ok(probe) => decoded_request(document_of(body@)) == Ok::<ParamsView, DecodeError>(
                    probe@.params,
                ) && probe@ == initial(probe@.params),
                Err(error) => decoded_request(document_of(body@)) == Err::<
                    ParamsView,
                    DecodeError,
                >(error),
            },
    {
        match decode(body) {
            Ok(params) => Ok(Probe::new(params)),
            Err(error) => Err(error),
        }
    }

    /// The parameters this probe was made for.
    pub fn parameters(&self) -> (params: &ConnectionParameters)
        ensures
            params@ == self@.params,
    {
        &self.params
    }

    /// What the caller must do next.
    pub fn action(&self) -> (action: Action)
        ensures
            action@ == pending(self@),
    {
        match &self.state {
            State::Connecting => Action::Connect(self.params.connection_string()),
            State::Checking(_) => Action::Query(LIVENESS_QUERY),
            State::Sleeping(_) => Action::Sleep(INTERVAL_SECONDS),
            State::Done(outcome, _) => Action::Respond(encode(outcome)),
        }
    }

    /// Takes in what happened to the last action and names the next one.
    pub fn step(&mut self, event: Event) -> (action: Action)
        ensures
            final(self)@ == step_of(old(self)@, event@),
            final(self)@.wf(),
            action@ == pending(final(self)@),
    {
        proof {
            use_type_invariant(&*self);
        }
        match event {
            Event::Connected => {
                if let State::Connecting = self.state {
                    self.state = State::Checking(0);
                }
            },
            Event::ConnectFailed(detail) => {
                if let State::Connecting = self.state {
                    self.state = State::Done(ProbeOutcome::ConnectFailed(detail), 0);
                }
            },
            Event::Checked(result) => {
                if let State::Checking(elapsed) = self.state {
                    match result {
                        Ok(true) => {
                            self.state = State::Done(ProbeOutcome::Ready, elapsed);
                        },
                        Ok(false) => {
                            self.state = State::Sleeping(elapsed);
                        },
                        Err(detail) => {
                            self.state = State::Done(ProbeOutcome::QueryFailed(detail), elapsed);
                        },
                    }
                }
            },
            Event::Slept => {
                if let State::Sleeping(elapsed) = self.state {
                    let elapsed: u64 = elapsed + INTERVAL_SECONDS;
                    if elapsed >= TIMEOUT_SECONDS {
                        self.state = State::Done(ProbeOutcome::TimedOut, elapsed);
                    } else {
                        self.state = State::Checking(elapsed);
                    }
                }
            },
        }
        self.action()
    }

    /// Seconds slept so far.
    pub fn elapsed_seconds(&self) -> (seconds: u64)
        ensures
            seconds == self@.elapsed,
            seconds % INTERVAL_SECONDS == 0,
            seconds <= TIMEOUT_SECONDS,
    {
        proof {
            use_type_invariant(self);
        }
        match self.state {
            State::Connecting => 0,
            State::Checking(elapsed) => elapsed,
            State::Sleeping(elapsed) => elapsed,
            State::Done(_, elapsed) => elapsed,
        }
    }

    /// The outcome, once the probe is over.
    pub fn outcome(&self) -> (outcome: Option<&ProbeOutcome>)
        ensures
            match outcome {
                Some(o) => self@.phase == PhaseView::Done(o@),
                None => !self@.done(),
            },
    {
        match &self.state {
            State::Done(outcome, _) => Some(outcome),
            _ => None,
        }
    }
}

} // verus!
