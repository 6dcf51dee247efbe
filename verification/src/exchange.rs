//! A whole exchange, from the request to the answer, and what holds of every one.

use crate::handlers::{first_step, next_step, ActionView, EventView, OutcomeView, RelayState};
use crate::models::{RequestView, ResponseView};
use crate::upstream::{is_success, resolved_url};
use crate::validation::{acceptable, rating_in_range, rejection_of, Rejection};
use vstd::prelude::*;

verus! {

/// The actions that fall due from `state` on, while `events` come in one by
/// one. An event that has no place in the state it meets is passed over.
pub open spec fn actions_from(state: RelayState, events: Seq<EventView>) -> Seq<ActionView>
    decreases events.len(),
{
    if events.len() == 0 {
        Seq::empty()
    } else {
        match next_step(state, events.first()) {
            Some(step) => seq![step.action] + actions_from(step.state, events.drop_first()),
            None => actions_from(state, events.drop_first()),
        }
    }
}

/// Every action of one exchange, in order: the relay's first move on the
/// request, then its moves on the events.
pub open spec fn exchange(
    request: RequestView,
    base: Seq<char>,
    events: Seq<EventView>,
) -> Seq<ActionView> {
    let first = first_step(request, base);
    seq![first.action] + actions_from(first.state, events)
}

/// How many of `actions` send something upstream.
pub open spec fn upstream_calls(actions: Seq<ActionView>) -> nat
    decreases actions.len(),
{
    if actions.len() == 0 {
        0
    } else if actions.first() is Forward {
        1 + upstream_calls(actions.drop_first())
    } else {
        upstream_calls(actions.drop_first())
    }
}

/// How many of `actions` answer the caller.
pub open spec fn answers(actions: Seq<ActionView>) -> nat
    decreases actions.len(),
{
    if actions.len() == 0 {
        0
    } else if actions.first() is Respond {
        1 + answers(actions.drop_first())
    } else {
        answers(actions.drop_first())
    }
}

/// Whether `event` is something that can come of carrying out `action`: the
/// connection fails or a status arrives when a request was sent, the body
/// decodes or does not when it was read, and nothing comes of an answer.
pub open spec fn answers_action(event: EventView, action: ActionView) -> bool {
    match action {
        ActionView::Forward { .. } => event is Unreachable || event is Status,
        ActionView::ReadBody => event is Body || event is BodyRejected,
        ActionView::Respond(_) => false,
    }
}

/// The relay is ready for whatever comes of its first move.
pub proof fn lemma_first_step_awaits_its_answer(
    request: RequestView,
    base: Seq<char>,
    event: EventView,
)
    requires
        answers_action(event, first_step(request, base).action),
    ensures
        next_step(first_step(request, base).state, event) is Some,
{
}

/// The relay is ready for whatever comes of any later move.
pub proof fn lemma_next_step_awaits_its_answer(
    state: RelayState,
    event: EventView,
    reply: EventView,
)
    requires
        next_step(state, event) is Some,
        answers_action(reply, next_step(state, event)->0.action),
    ensures
        next_step(next_step(state, event)->0.state, reply) is Some,
{
}

/// The actions on a first event and those that follow are the relay's move on
/// the first, then the actions on the rest from the state that this move
/// leads to.
pub proof fn lemma_actions_one_event_at_a_time(
    state: RelayState,
    event: EventView,
    later: Seq<EventView>,
)
    ensures
        actions_from(state, seq![event] + later) == (match next_step(state, event) {
            Some(step) => seq![step.action] + actions_from(step.state, later),
            None => actions_from(state, later),
        }),
{
    let events = seq![event] + later;
    assert(events.drop_first() == later);
}

/// Once the caller has its answer, no event brings about anything.
pub proof fn lemma_finished_is_final(events: Seq<EventView>)
    ensures
        actions_from(RelayState::Finished, events) == Seq::<ActionView>::empty(),
    decreases events.len(),
{
    if events.len() > 0 {
        lemma_finished_is_final(events.drop_first());
    }
}

/// No event makes the relay send anything upstream.
pub proof fn lemma_events_call_nothing(state: RelayState, events: Seq<EventView>)
    ensures
        upstream_calls(actions_from(state, events)) == 0,
    decreases events.len(),
{
    if events.len() > 0 {
        match next_step(state, events.first()) {
            Some(step) => {
                let later = actions_from(step.state, events.drop_first());
                lemma_events_call_nothing(step.state, events.drop_first());
                assert((seq![step.action] + later).drop_first() == later);
            },
            None => {
                lemma_events_call_nothing(state, events.drop_first());
            },
        }
    }
}

/// From any state on, the caller is answered at most once, and not at all once
/// it has its answer.
pub proof fn lemma_at_most_one_answer(state: RelayState, events: Seq<EventView>)
    ensures
        answers(actions_from(state, events)) <= 1,
        state == RelayState::Finished ==> answers(actions_from(state, events)) == 0,
    decreases events.len(),
{
    if events.len() > 0 {
        match next_step(state, events.first()) {
            Some(step) => {
                let later = actions_from(step.state, events.drop_first());
                lemma_at_most_one_answer(step.state, events.drop_first());
                assert((seq![step.action] + later).drop_first() == later);
            },
            None => {
                lemma_at_most_one_answer(state, events.drop_first());
            },
        }
    }
}

/// Every exchange answers the caller at most once: a request that is turned
/// away at once, any other when upstream has been heard.
pub proof fn lemma_exchange_answers_at_most_once(
    request: RequestView,
    base: Seq<char>,
    events: Seq<EventView>,
)
    ensures
        answers(exchange(request, base, events)) <= 1,
        !acceptable(request) ==> answers(exchange(request, base, events)) == 1,
{
    let first = first_step(request, base);
    let later = actions_from(first.state, events);
    lemma_at_most_one_answer(first.state, events);
    assert((seq![first.action] + later).drop_first() == later);
}

/// A request that fails a check is answered with that client error, and the
/// exchange is over: nothing goes upstream, whatever is reported afterwards.
pub proof fn lemma_rejected_request_is_answered_at_once(
    request: RequestView,
    base: Seq<char>,
    events: Seq<EventView>,
)
    requires
        !acceptable(request),
    ensures
        rejection_of(request) is Some,
        exchange(request, base, events) == seq![
            ActionView::Respond(OutcomeView::ClientError(rejection_of(request)->0)),
        ],
        upstream_calls(exchange(request, base, events)) == 0,
{
    lemma_finished_is_final(events);
    let all = exchange(request, base, events);
    assert(upstream_calls(all.drop_first()) == 0);
}

/// A request without openings is answered with a client error that says so,
/// whatever its rating, and nothing goes upstream.
pub proof fn lemma_no_openings_no_call(
    request: RequestView,
    base: Seq<char>,
    events: Seq<EventView>,
)
    requires
        request.favorite_openings.len() == 0,
    ensures
        exchange(request, base, events) == seq![
            ActionView::Respond(OutcomeView::ClientError(Rejection::NoOpenings)),
        ],
        exchange(request, base, events)[0]->Respond_0.status_code() == 400,
        upstream_calls(exchange(request, base, events)) == 0,
{
    lemma_rejected_request_is_answered_at_once(request, base, events);
}

/// A request whose rating is out of range is answered with a client error,
/// and nothing goes upstream.
pub proof fn lemma_rating_out_of_range_no_call(
    request: RequestView,
    base: Seq<char>,
    events: Seq<EventView>,
)
    requires
        !rating_in_range(request.user_rating),
    ensures
        exchange(request, base, events).len() == 1,
        exchange(request, base, events)[0] is Respond,
        exchange(request, base, events)[0]->Respond_0 is ClientError,
        exchange(request, base, events)[0]->Respond_0.status_code() == 400,
        request.favorite_openings.len() > 0 ==> exchange(request, base, events)[0]
            == ActionView::Respond(OutcomeView::ClientError(Rejection::RatingOutOfRange)),
        upstream_calls(exchange(request, base, events)) == 0,
{
    lemma_rejected_request_is_answered_at_once(request, base, events);
}

/// A request that passes the checks goes upstream exactly once, whatever
/// happens afterwards: first of all, unchanged, and to the resolved address.
pub proof fn lemma_accepted_request_is_forwarded_once(
    request: RequestView,
    base: Seq<char>,
    events: Seq<EventView>,
)
    requires
        acceptable(request),
    ensures
        exchange(request, base, events)[0] == (ActionView::Forward {
            url: resolved_url(base),
            payload: request,
        }),
        upstream_calls(exchange(request, base, events)) == 1,
{
    let later = actions_from(RelayState::AwaitingUpstream, events);
    lemma_events_call_nothing(RelayState::AwaitingUpstream, events);
    let all = exchange(request, base, events);
    assert(all.drop_first() == later);
}

/// Where upstream cannot be reached, the caller is told that the service is
/// unavailable: for every request that passed the checks, and that ends the
/// exchange.
pub proof fn lemma_unreachable_upstream_is_unavailable(
    request: RequestView,
    base: Seq<char>,
    later: Seq<EventView>,
)
    requires
        acceptable(request),
    ensures
        exchange(request, base, seq![EventView::Unreachable] + later) == seq![
            ActionView::Forward { url: resolved_url(base), payload: request },
            ActionView::Respond(OutcomeView::ServiceUnavailable),
        ],
{
    lemma_actions_one_event_at_a_time(RelayState::AwaitingUpstream, EventView::Unreachable, later);
    lemma_finished_is_final(later);
}

/// Where upstream answers without success, the caller is told of a bad
/// gateway, and that ends the exchange. The relay knows of upstream's answer
/// only the status, so nothing of what upstream wrote reaches the caller.
pub proof fn lemma_upstream_failure_is_bad_gateway(
    request: RequestView,
    base: Seq<char>,
    status: u16,
    later: Seq<EventView>,
)
    requires
        acceptable(request),
        !is_success(status),
    ensures
        exchange(request, base, seq![EventView::Status(status)] + later) == seq![
            ActionView::Forward { url: resolved_url(base), payload: request },
            ActionView::Respond(OutcomeView::BadGateway),
        ],
        OutcomeView::BadGateway.status_code() == 502,
        OutcomeView::BadGateway.message() == Some("AI Service error"@),
{
    lemma_actions_one_event_at_a_time(
        RelayState::AwaitingUpstream,
        EventView::Status(status),
        later,
    );
    lemma_finished_is_final(later);
}

/// Where upstream reports success with a body that cannot be decoded, the
/// caller is told of an internal error, and that ends the exchange.
pub proof fn lemma_rejected_body_is_internal_error(
    request: RequestView,
    base: Seq<char>,
    status: u16,
    later: Seq<EventView>,
)
    requires
        acceptable(request),
        is_success(status),
    ensures
        exchange(
            request,
            base,
            seq![EventView::Status(status), EventView::BodyRejected] + later,
        ) == seq![
            ActionView::Forward { url: resolved_url(base), payload: request },
            ActionView::ReadBody,
            ActionView::Respond(OutcomeView::InternalError),
        ],
{
    let tail = seq![EventView::BodyRejected] + later;
    assert(seq![EventView::Status(status), EventView::BodyRejected] + later
        == seq![EventView::Status(status)] + tail);
    lemma_actions_one_event_at_a_time(
        RelayState::AwaitingUpstream,
        EventView::Status(status),
        tail,
    );
    lemma_actions_one_event_at_a_time(RelayState::AwaitingBody, EventView::BodyRejected, later);
    lemma_finished_is_final(later);
}

/// Where upstream reports success with a body that decodes, the caller
/// receives exactly that body, and that ends the exchange.
pub proof fn lemma_decoded_body_is_relayed(
    request: RequestView,
    base: Seq<char>,
    status: u16,
    data: Seq<ResponseView>,
    later: Seq<EventView>,
)
    requires
        acceptable(request),
        is_success(status),
    ensures
        exchange(
            request,
            base,
            seq![EventView::Status(status), EventView::Body(data)] + later,
        ) == seq![
            ActionView::Forward { url: resolved_url(base), payload: request },
            ActionView::ReadBody,
            ActionView::Respond(OutcomeView::Success(data)),
        ],
{
    let tail = seq![EventView::Body(data)] + later;
    assert(seq![EventView::Status(status), EventView::Body(data)] + later
        == seq![EventView::Status(status)] + tail);
    lemma_actions_one_event_at_a_time(
        RelayState::AwaitingUpstream,
        EventView::Status(status),
        tail,
    );
    lemma_actions_one_event_at_a_time(RelayState::AwaitingBody, EventView::Body(data), later);
    lemma_finished_is_final(later);
}

} // verus!
