//! The relay's decisions: what to do with a request, and what to make of each
//! thing that comes back from upstream.
//!
//! The relay itself performs nothing. [`get_recommendations`] and [`advance`]
//! say which action is due, whoever drives them carries it out and reports
//! what happened, and the exchange ends with the action that answers the
//! caller.

use crate::config::Config;
use crate::models::{RecommendationRequest, RecommendationResponse, RequestView, ResponseView};
use crate::upstream::{is_success, is_success_status, resolve_upstream_url, resolved_url};
use crate::validation::{rejection_of, validate, Rejection};
use vstd::prelude::*;

verus! {

/// How far an exchange has come.
#[derive(Clone, Copy, Debug, PartialEq, Eq, Structural)]
pub enum RelayState {
    /// The request went upstream and nothing has come back yet.
    AwaitingUpstream,
    /// Upstream reported success and its body is still to be decoded.
    AwaitingBody,
    /// The caller has its answer. Nothing more happens.
    Finished,
}

/// How an exchange ends for the caller.
#[derive(Clone, Debug, PartialEq)]
pub enum RelayOutcome {
    /// Upstream's recommendations, as they came.
    Success(Vec<RecommendationResponse>),
    /// The request was turned away before anything was sent.
    ClientError(Rejection),
    /// Upstream answered, but not with success.
    BadGateway,
    /// Upstream could not be reached.
    ServiceUnavailable,
    /// Upstream reported success with a body that is not a list of recommendations.
    InternalError,
}

/// What a [`RelayOutcome`] holds.
pub enum OutcomeView {
    Success(Seq<ResponseView>),
    ClientError(Rejection),
    BadGateway,
    ServiceUnavailable,
    InternalError,
}

impl View for RelayOutcome {
    type V = OutcomeView;

    open spec fn view(&self) -> OutcomeView {
        match self {
            RelayOutcome::Success(data) => OutcomeView::Success(data.deep_view()),
            RelayOutcome::ClientError(reason) => OutcomeView::ClientError(*reason),
            RelayOutcome::BadGateway => OutcomeView::BadGateway,
            RelayOutcome::ServiceUnavailable => OutcomeView::ServiceUnavailable,
            RelayOutcome::InternalError => OutcomeView::InternalError,
        }
    }
}

impl OutcomeView {
    /// HTTP status that the caller receives.
    pub open spec fn status_code(self) -> u16 {
        match self {
            OutcomeView::Success(_) => 200,
            OutcomeView::ClientError(_) => 400,
            OutcomeView::BadGateway => 502,
            OutcomeView::ServiceUnavailable => 503,
            OutcomeView::InternalError => 500,
        }
    }

    /// Text that the caller receives in place of recommendations.
    pub open spec fn message(self) -> Option<Seq<char>> {
        match self {
            OutcomeView::Success(_) => None,
            OutcomeView::ClientError(reason) => Some(reason.spec_message()),
            OutcomeView::BadGateway => Some("AI Service error"@),
            OutcomeView::ServiceUnavailable => Some("AI Service sedang mati"@),
            OutcomeView::InternalError => Some("Gagal parsing data dari AI"@),
        }
    }
}

impl RelayOutcome {
    /// HTTP status that the caller receives.
    pub fn status_code(&self) -> (code: u16)
        ensures
            code == self@.status_code(),
    {
        match self {
            RelayOutcome::Success(_) => 200,
            RelayOutcome::ClientError(_) => 400,
            RelayOutcome::BadGateway => 502,
            RelayOutcome::ServiceUnavailable => 503,
            RelayOutcome::InternalError => 500,
        }
    }

    /// Text that the caller receives in place of recommendations: one fixed
    /// sentence for each way of failing, and none on success.
    pub fn message(&self) -> (text: Option<&'static str>)
        ensures
            text is Some <==> self@.message() is Some,
            text is Some ==> text->0@ == self@.message()->0,
    {
        match self {
            RelayOutcome::Success(_) => None,
            RelayOutcome::ClientError(reason) => Some(reason.message()),
            RelayOutcome::BadGateway => Some("AI Service error"),
            RelayOutcome::ServiceUnavailable => Some("AI Service sedang mati"),
            RelayOutcome::InternalError => Some("Gagal parsing data dari AI"),
        }
    }
}

/// What is due next in an exchange.
#[derive(Clone, Debug, PartialEq)]
pub enum RelayAction {
    /// Send `payload` to `url`, once, with one HTTP POST.
    Forward { url: String, payload: RecommendationRequest },
    /// Read upstream's body and decode it.
    ReadBody,
    /// Answer the caller.
    Respond(RelayOutcome),
}

/// What a [`RelayAction`] holds.
pub enum ActionView {
    Forward { url: Seq<char>, payload: RequestView },
    ReadBody,
    Respond(OutcomeView),
}

impl View for RelayAction {
    type V = ActionView;

    open spec fn view(&self) -> ActionView {
        match self {
            RelayAction::Forward { url, payload } => ActionView::Forward {
                url: url@,
                payload: payload@,
            },
            RelayAction::ReadBody => ActionView::ReadBody,
            RelayAction::Respond(outcome) => ActionView::Respond(outcome@),
        }
    }
}

/// What happened upstream.
#[derive(Clone, Debug, PartialEq)]
pub enum UpstreamEvent {
    /// The request did not get through, or no answer came back.
    Unreachable,
    /// Upstream answered with this HTTP status.
    Status(u16),
    /// The body decoded into these recommendations.
    Body(Vec<RecommendationResponse>),
    /// The body could not be read, or is not a list of recommendations.
    BodyRejected,
}

/// What an [`UpstreamEvent`] holds.
pub enum EventView {
    Unreachable,
    Status(u16),
    Body(Seq<ResponseView>),
    BodyRejected,
}

impl View for UpstreamEvent {
    type V = EventView;

    open spec fn view(&self) -> EventView {
        match self {
            UpstreamEvent::Unreachable => EventView::Unreachable,
            UpstreamEvent::Status(code) => EventView::Status(*code),
            UpstreamEvent::Body(data) => EventView::Body(data.deep_view()),
            UpstreamEvent::BodyRejected => EventView::BodyRejected,
        }
    }
}

/// One move of the relay: the state it is in now, and the action that is due.
#[derive(Clone, Debug, PartialEq)]
pub struct RelayStep {
    pub state: RelayState,
    pub action: RelayAction,
}

/// What a [`RelayStep`] holds.
pub struct StepView {
    pub state: RelayState,
    pub action: ActionView,
}

impl View for RelayStep {
    type V = StepView;

    open spec fn view(&self) -> StepView {
        StepView { state: self.state, action: self.action@ }
    }
}

/// The step that ends an exchange with `outcome`.
pub open spec fn answer(outcome: OutcomeView) -> StepView {
    StepView { state: RelayState::Finished, action: ActionView::Respond(outcome) }
}

/// The relay's first move. A request that fails a check is answered at once
/// with the reason; any other goes to the resolved address as it came.
pub open spec fn first_step(request: RequestView, base: Seq<char>) -> StepView {
    match rejection_of(request) {
        Some(reason) => answer(OutcomeView::ClientError(reason)),
        None => StepView {
            state: RelayState::AwaitingUpstream,
            action: ActionView::Forward { url: resolved_url(base), payload: request },
        },
    }
}

/// The relay's move on an event, or `None` where the event has no place in
/// the state.
///
/// While upstream is awaited: a failure to reach it ends the exchange with
/// service-unavailable, a status outside 200..=299 ends it with bad-gateway,
/// and a status within asks for the body. While the body is awaited: a decoded
/// body ends the exchange with exactly that body, and a rejected one ends it
/// with internal-error.
pub open spec fn next_step(state: RelayState, event: EventView) -> Option<StepView> {
    match (state, event) {
        (RelayState::AwaitingUpstream, EventView::Unreachable) => Some(
            answer(OutcomeView::ServiceUnavailable),
        ),
        (RelayState::AwaitingUpstream, EventView::Status(code)) => if is_success(code) {
            Some(StepView { state: RelayState::AwaitingBody, action: ActionView::ReadBody })
        } else {
            Some(answer(OutcomeView::BadGateway))
        },
        (RelayState::AwaitingBody, EventView::Body(data)) => Some(
            answer(OutcomeView::Success(data)),
        ),
        (RelayState::AwaitingBody, EventView::BodyRejected) => Some(
            answer(OutcomeView::InternalError),
        ),
        _ => None,
    }
}

/// Takes a decoded request and says what is due: an answer for the caller
/// where a check fails, the one call upstream where none does.
pub fn get_recommendations(payload: RecommendationRequest, config: &Config) -> (step: RelayStep)
    ensures
        step@ == first_step(payload@, config@.ai_service_url),
{
    match validate(&payload) {
        Err(reason) => RelayStep {
            state: RelayState::Finished,
            action: RelayAction::Respond(RelayOutcome::ClientError(reason)),
        },
        Ok(()) => {
            let url = resolve_upstream_url(config.ai_service_url.as_str());
            RelayStep {
                state: RelayState::AwaitingUpstream,
                action: RelayAction::Forward { url, payload },
            }
        },
    }
}

/// Takes what happened upstream and says what is due next. An event that has
/// no place in `state` is refused with `None`, and changes nothing.
pub fn advance(state: RelayState, event: UpstreamEvent) -> (step: Option<RelayStep>)
    ensures
        step is Some <==> next_step(state, event@) is Some,
        step is Some ==> step->0@ == next_step(state, event@)->0,
{
    match (state, event) {
        (RelayState::AwaitingUpstream, UpstreamEvent::Unreachable) => Some(
            finish(RelayOutcome::ServiceUnavailable),
        ),
        (RelayState::AwaitingUpstream, UpstreamEvent::Status(code)) => {
            if is_success_status(code) {
                Some(RelayStep { state: RelayState::AwaitingBody, action: RelayAction::ReadBody })
            } else {
                Some(finish(RelayOutcome::BadGateway))
            }
        },
        (RelayState::AwaitingBody, UpstreamEvent::Body(data)) => Some(
            finish(RelayOutcome::Success(data)),
        ),
        (RelayState::AwaitingBody, UpstreamEvent::BodyRejected) => Some(
            finish(RelayOutcome::InternalError),
        ),
        _ => None,
    }
}

/// The step that ends an exchange with `outcome`.
fn finish(outcome: RelayOutcome) -> (step: RelayStep)
    ensures
        step@ == answer(outcome@),
{
    RelayStep { state: RelayState::Finished, action: RelayAction::Respond(outcome) }
}

/// Liveness text of the gateway.
pub open spec fn health_text() -> Seq<char> {
    "Rust Backend is Healthy! 🦀"@
}

/// Answers a liveness probe: status 200 and a fixed text, whatever upstream does.
pub fn health_check() -> (reply: (u16, &'static str))
    ensures
        reply.0 == 200,
        reply.1@ == health_text(),
{
    (200, "Rust Backend is Healthy! 🦀")
}

} // verus!
