//! The outcome of a probe and the response that reports it.

use vstd::prelude::*;
use vstd::string::*;

verus! {

/// Status reported when the database answered.
pub const STATUS_READY: u16 = 200;

/// Status reported for every other outcome.
pub const STATUS_FAILED: u16 = 500;

/// How a probe ended. Produced once per invocation.
#[derive(Debug, Clone, PartialEq, Eq)]
pub enum ProbeOutcome {
    /// A liveness query succeeded.
    Ready,
    /// The single connect attempt failed; carries the driver's description.
    ConnectFailed(String),
    /// A liveness check reported a fatal error; carries its description.
    QueryFailed(String),
    /// No failure occurred, but readiness was not seen before the ceiling.
    TimedOut,
}

/// Mathematical model of a [`ProbeOutcome`].
pub enum OutcomeView {
    Ready,
    ConnectFailed(Seq<char>),
    QueryFailed(Seq<char>),
    TimedOut,
}

impl View for ProbeOutcome {
    type V = OutcomeView;

    open spec fn view(&self) -> OutcomeView {
        match self {
            ProbeOutcome::Ready => OutcomeView::Ready,
            ProbeOutcome::ConnectFailed(detail) => OutcomeView::ConnectFailed(detail@),
            ProbeOutcome::QueryFailed(detail) => OutcomeView::QueryFailed(detail@),
            ProbeOutcome::TimedOut => OutcomeView::TimedOut,
        }
    }
}

/// What the hosting runtime is told: a status code and a message.
#[derive(Debug, Clone, PartialEq, Eq)]
pub struct Response {
    pub status: u16,
    pub message: String,
}

/// Mathematical model of a [`Response`].
pub struct ResponseView {
    pub status: u16,
    pub message: Seq<char>,
}

impl View for Response {
    type V = ResponseView;

    open spec fn view(&self) -> ResponseView {
        ResponseView { status: self.status, message: self.message@ }
    }
}

/// The status code of an outcome: 200 for `Ready`, 500 otherwise.
pub open spec fn status_of(outcome: OutcomeView) -> u16 {
    if outcome is Ready {
        STATUS_READY
    } else {
        STATUS_FAILED
    }
}

/// The message of an outcome. A failure's detail follows its fixed prefix
/// unchanged.
pub open spec fn message_of(outcome: OutcomeView) -> Seq<char> {
    match outcome {
        OutcomeView::Ready => "Database is ready!"@,
        OutcomeView::ConnectFailed(detail) => "Error connecting to database: "@ + detail,
        OutcomeView::QueryFailed(detail) => "Error checking database: "@ + detail,
        OutcomeView::TimedOut => "Database did not become available within 5 minutes."@,
    }
}

/// The response that reports an outcome.
pub open spec fn response_for(outcome: OutcomeView) -> ResponseView {
    ResponseView { status: status_of(outcome), message: message_of(outcome) }
}

impl ProbeOutcome {
    /// The status code that reports this outcome.
    pub fn status(&self) -> (code: u16)
        ensures
            code == status_of(self@),
    {
        match self {
            ProbeOutcome::Ready => STATUS_READY,
            _ => STATUS_FAILED,
        }
    }

    /// The message that reports this outcome.
    pub fn message(&self) -> (text: String)
        ensures
            text@ == message_of(self@),
    {
        match self {
            ProbeOutcome::Ready => String::from_str("Database is ready!"),
            ProbeOutcome::ConnectFailed(detail) => {
                String::from_str("Error connecting to database: ").concat(detail.as_str())
            },
            ProbeOutcome::QueryFailed(detail) => {
                String::from_str("Error checking database: ").concat(detail.as_str())
            },
            ProbeOutcome::TimedOut => {
                String::from_str("Database did not become available within 5 minutes.")
            },
        }
    }
}

/// Maps an outcome to the response that the hosting runtime expects.
pub fn encode(outcome: &ProbeOutcome) -> (response: Response)
    ensures
        response@ == response_for(outcome@),
{
    Response { status: outcome.status(), message: outcome.message() }
}

} // verus!
