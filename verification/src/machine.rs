//! One relay as a sequence of steps, for a caller that performs the exchange
//! itself and cannot hand it over as a function: the caller does what each
//! step asks for and reports what came of it.

use vstd::prelude::*;
use crate::error::{ErrorModel, RelayError};
use crate::relay::{plan_of, prepare};
use crate::request::{HttpRequest, Outbound, OutboundModel, RequestModel};
use crate::response::{HttpResponse, ResponseModel};

verus! {

/// Where a relay stands.
#[derive(Clone, Debug, PartialEq, Eq)]
pub enum Phase {
    /// Nothing has been sent.
    Building,
    /// The request is with the transport and no response has come.
    Sent,
    /// A response with this status has come; its body is being read.
    Receiving { status: u16 },
    /// The relay is over and gave this response.
    Succeeded(HttpResponse),
    /// The relay is over and failed.
    Failed(RelayError),
}

/// What the caller reports.
#[derive(Clone, Debug, PartialEq, Eq)]
pub enum Event {
    /// The user interface asks for this request.
    Submit(HttpRequest),
    /// The exchange failed before a response came.
    ExchangeFailed(String),
    /// A response came, with this status.
    Responded(u16),
    /// The body was read to the end.
    BodyRead(String),
    /// Reading the body failed.
    BodyFailed(String),
}

/// What the caller is to do next.
#[derive(Clone, Debug, PartialEq, Eq)]
pub enum Action {
    /// Send this, and report `ExchangeFailed` or `Responded`.
    Send(Outbound),
    /// Read the response's body, and report `BodyRead` or `BodyFailed`.
    ReadBody,
    /// Nothing: the relay is over.
    Finish,
}

/// A [`Phase`] over the models of what it holds.
pub ghost enum PhaseModel {
    Building,
    Sent,
    Receiving { status: u16 },
    Succeeded(ResponseModel),
    Failed(ErrorModel),
}

/// An [`Event`] over the models of what it holds.
pub ghost enum EventModel {
    Submit(RequestModel),
    ExchangeFailed(Seq<char>),
    Responded(u16),
    BodyRead(Seq<char>),
    BodyFailed(Seq<char>),
}

/// An [`Action`] over the model of what it holds.
pub ghost enum ActionModel {
    Send(OutboundModel),
    ReadBody,
    Finish,
}

impl View for Phase {
    type V = PhaseModel;

    open spec fn view(&self) -> PhaseModel {
        match self {
            Phase::Building => PhaseModel::Building,
            Phase::Sent => PhaseModel::Sent,
            Phase::Receiving { status } => PhaseModel::Receiving { status: *status },
            Phase::Succeeded(response) => PhaseModel::Succeeded(response@),
            Phase::Failed(error) => PhaseModel::Failed(error@),
        }
    }
}

impl View for Event {
    type V = EventModel;

    open spec fn view(&self) -> EventModel {
        match self {
            Event::Submit(request) => EventModel::Submit(request@),
            Event::ExchangeFailed(words) => EventModel::ExchangeFailed(words@),
            Event::Responded(status) => EventModel::Responded(*status),
            Event::BodyRead(body) => EventModel::BodyRead(body@),
            Event::BodyFailed(words) => EventModel::BodyFailed(words@),
        }
    }
}

impl View for Action {
    type V = ActionModel;

    open spec fn view(&self) -> ActionModel {
        match self {
            Action::Send(plan) => ActionModel::Send(plan@),
            Action::ReadBody => ActionModel::ReadBody,
            Action::Finish => ActionModel::Finish,
        }
    }
}

/// The phase after an event and what is to be done then, or `None` where
/// the event cannot come in that phase. A relay that is over takes no event.
pub open spec fn step_of(phase: PhaseModel, event: EventModel) -> Option<
    (PhaseModel, ActionModel),
> {
    match (phase, event) {
        (PhaseModel::Building, EventModel::Submit(request)) => Some(
            match plan_of(request) {
                Ok(plan) => (PhaseModel::Sent, ActionModel::Send(plan)),
                Err(error) => (PhaseModel::Failed(error), ActionModel::Finish),
            },
        ),
        (PhaseModel::Sent, EventModel::ExchangeFailed(words)) => Some(
            (PhaseModel::Failed(ErrorModel::Transport(words)), ActionModel::Finish),
        ),
        (PhaseModel::Sent, EventModel::Responded(status)) => Some(
            (PhaseModel::Receiving { status }, ActionModel::ReadBody),
        ),
        (PhaseModel::Receiving { status }, EventModel::BodyRead(body)) => Some(
            (PhaseModel::Succeeded(ResponseModel { status, body }), ActionModel::Finish),
        ),
        (PhaseModel::Receiving { status }, EventModel::BodyFailed(words)) => Some(
            (PhaseModel::Failed(ErrorModel::BodyRead(words)), ActionModel::Finish),
        ),
        _ => None,
    }
}

/// What a finished relay gave; `None` while it is under way.
pub open spec fn result_of(phase: PhaseModel) -> Option<Result<ResponseModel, ErrorModel>> {
    match phase {
        PhaseModel::Succeeded(response) => Some(Ok(response)),
        PhaseModel::Failed(error) => Some(Err(error)),
        _ => None,
    }
}

/// What a step returned, over the models.
pub open spec fn step_view(stepped: Option<(Phase, Action)>) -> Option<(PhaseModel, ActionModel)> {
    match stepped {
        Some((phase, action)) => Some((phase@, action@)),
        None => None,
    }
}

/// What a finished relay handed out, over the models.
pub open spec fn finished_view(finished: Option<Result<HttpResponse, RelayError>>) -> Option<
    Result<ResponseModel, ErrorModel>,
> {
    match finished {
        Some(Ok(response)) => Some(Ok(response@)),
        Some(Err(error)) => Some(Err(error@)),
        None => None,
    }
}

impl Phase {
    /// The phase in which every relay begins.
    pub fn new() -> (phase: Phase)
        ensures
            phase@ == PhaseModel::Building,
    {
        Phase::Building
    }

    /// Takes one event. `None` exactly where the event cannot come in this
    /// phase.
    pub fn step(self, event: Event) -> (stepped: Option<(Phase, Action)>)
        ensures
            step_view(stepped) == step_of(self@, event@),
    {
        match (self, event) {
            (Phase::Building, Event::Submit(request)) => match prepare(request) {
                Ok(plan) => Some((Phase::Sent, Action::Send(plan))),
                Err(error) => Some((Phase::Failed(error), Action::Finish)),
            },
            (Phase::Sent, Event::ExchangeFailed(words)) => Some(
                (Phase::Failed(RelayError::Transport(words)), Action::Finish),
            ),
            (Phase::Sent, Event::Responded(status)) => Some(
                (Phase::Receiving { status }, Action::ReadBody),
            ),
            (Phase::Receiving { status }, Event::BodyRead(body)) => Some(
                (Phase::Succeeded(HttpResponse { status, body }), Action::Finish),
            ),
            (Phase::Receiving { status: _ }, Event::BodyFailed(words)) => Some(
                (Phase::Failed(RelayError::BodyRead(words)), Action::Finish),
            ),
            _ => None,
        }
    }

    /// The result of a relay that is over; `None` while it is under way.
    pub fn into_result(self) -> (finished: Option<Result<HttpResponse, RelayError>>)
        ensures
            finished_view(finished) == result_of(self@),
    {
        match self {
            Phase::Succeeded(response) => Some(Ok(response)),
            Phase::Failed(error) => Some(Err(error)),
            _ => None,
        }
    }
}

} // verus!
