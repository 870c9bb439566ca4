//! What holds of the relay as a whole, proved from the definitions.

use vstd::prelude::*;
use crate::dispatch::{assembled_of, begun_of, headed_of, header_of};
use crate::error::{detail_of, lead_of, message_of, ErrorModel};
use crate::machine::{result_of, step_of, ActionModel, EventModel, PhaseModel};
use crate::method::{lemma_name_reads_back, method_name, method_of, Method};
use crate::relay::{plan_of, relay_of, render_of, ExchangeModel};
use crate::report::words_of;
use crate::request::{OutboundModel, RequestModel};
use crate::response::ResponseModel;

verus! {

/// A request that names a supported verb and gives neither headers nor a
/// body has a plan, with that verb and address, no header and no body.
pub proof fn law_bare_request_plan(url: Seq<char>, method: Method)
    ensures
        plan_of(RequestModel { url, method: method_name(method), headers: None, body: None })
            == Ok::<OutboundModel, ErrorModel>(
            OutboundModel { method, url, headers: Seq::empty(), body: None },
        ),
{
    lemma_name_reads_back(method);
}

/// The request made for a plan without headers and without a body is the
/// one that the client's function for the plan's verb returned for the
/// plan's address: no header was applied to it and no body attached.
pub proof fn law_bare_plan_is_only_begun(client: reqwest::Client, method: Method, url: Seq<char>)
    ensures
        assembled_of(client, OutboundModel { method, url, headers: Seq::empty(), body: None })
            == begun_of(client, method, url),
{
}

/// Headers are applied one by one, in the order of the list: the request
/// for a list with one more pair at its end is the request for the list,
/// with that pair applied to it. So each pair of a list is applied, once,
/// after all that stand before it, whether or not its name occurred
/// already.
pub proof fn law_headers_applied_in_order(
    builder: reqwest::RequestBuilder,
    headers: Seq<(Seq<char>, Seq<char>)>,
    next: (Seq<char>, Seq<char>),
)
    ensures
        headed_of(builder, Seq::empty()) == builder,
        headed_of(builder, headers.push(next)) == header_of(
            headed_of(builder, headers),
            next.0,
            next.1,
        ),
{
    assert(headers.push(next).drop_last() =~= headers);
}

/// A supported verb never keeps a body from being planned: whatever the
/// verb, the plan's body is the request's.
pub proof fn law_body_kept_for_every_verb(request: RequestModel)
    requires
        method_of(request.method) is Some,
    ensures
        plan_of(request) is Ok,
        plan_of(request)->Ok_0.body == request.body,
        plan_of(request)->Ok_0.url == request.url,
        plan_of(request)->Ok_0.method == method_of(request.method)->Some_0,
{
}

/// A request whose method is no supported verb fails with that method in
/// the error, whatever the transport would have reported, and nothing is to
/// be sent: the first step ends the relay.
pub proof fn law_unsupported_method_fails_unsent(request: RequestModel, exchange: ExchangeModel)
    requires
        method_of(request.method) is None,
    ensures
        plan_of(request) == Err::<OutboundModel, ErrorModel>(
            ErrorModel::UnsupportedMethod(request.method),
        ),
        relay_of(request, exchange) == Err::<ResponseModel, ErrorModel>(
            ErrorModel::UnsupportedMethod(request.method),
        ),
        render_of(relay_of(request, exchange)) == Err::<ResponseModel, Seq<char>>(
            "Unsupported HTTP method: "@ + request.method,
        ),
        step_of(PhaseModel::Building, EventModel::Submit(request)) == Some(
            (
                PhaseModel::Failed(ErrorModel::UnsupportedMethod(request.method)),
                ActionModel::Finish,
            ),
        ),
{
}

/// The plan holds every header pair of the request, as many as were given
/// and each at its place: none is dropped, merged or moved, also where two
/// have the same name.
pub proof fn law_headers_kept_in_order(request: RequestModel, pairs: Seq<(Seq<char>, Seq<char>)>)
    requires
        method_of(request.method) is Some,
        request.headers == Some(pairs),
    ensures
        plan_of(request) is Ok,
        plan_of(request)->Ok_0.headers.len() == pairs.len(),
        forall|i: int| 0 <= i < pairs.len() ==> plan_of(request)->Ok_0.headers[i] == pairs[i],
{
}

/// The message of an error ends with the error's detail, whole and
/// unchanged, right after the lead.
pub proof fn law_message_ends_with_detail(error: ErrorModel)
    ensures
        message_of(error).len() == lead_of(error).len() + detail_of(error).len(),
        message_of(error).subrange(lead_of(error).len() as int, message_of(error).len() as int)
            == detail_of(error),
        message_of(error).subrange(0, lead_of(error).len() as int) == lead_of(error),
{
    let lead = lead_of(error);
    let detail = detail_of(error);
    assert((lead + detail).subrange(lead.len() as int, (lead + detail).len() as int) =~= detail);
    assert((lead + detail).subrange(0, lead.len() as int) =~= lead);
}

/// Where the transport fails, before a response or while the body is read,
/// the relay of a planned request fails with a message that holds the
/// transport's words.
pub proof fn law_failure_embeds_transport_words(request: RequestModel, words: Seq<char>)
    requires
        method_of(request.method) is Some,
    ensures
        render_of(relay_of(request, ExchangeModel::Failed(words))) == Err::<
            ResponseModel,
            Seq<char>,
        >("HTTP request failed: "@ + words),
        render_of(relay_of(request, ExchangeModel::BodyFailed(words))) == Err::<
            ResponseModel,
            Seq<char>,
        >("Failed to read response body: "@ + words),
{
}

/// An error of the HTTP client reaches the caller in the client's own
/// words: reported while the request is out, or while the body is read, it
/// ends the relay, and the message is the lead for that failure followed by
/// the words that the client gave.
pub proof fn law_client_words_reach_the_message(error: reqwest::Error, status: u16)
    ensures
        step_of(PhaseModel::Sent, EventModel::ExchangeFailed(words_of(error))) == Some(
            (PhaseModel::Failed(ErrorModel::Transport(words_of(error))), ActionModel::Finish),
        ),
        step_of(PhaseModel::Receiving { status }, EventModel::BodyFailed(words_of(error)))
            == Some(
            (PhaseModel::Failed(ErrorModel::BodyRead(words_of(error))), ActionModel::Finish),
        ),
        render_of(result_of(PhaseModel::Failed(ErrorModel::Transport(words_of(error))))->Some_0)
            == Err::<ResponseModel, Seq<char>>("HTTP request failed: "@ + words_of(error)),
        render_of(result_of(PhaseModel::Failed(ErrorModel::BodyRead(words_of(error))))->Some_0)
            == Err::<ResponseModel, Seq<char>>(
            "Failed to read response body: "@ + words_of(error),
        ),
{
}

/// A plan that is refused for the number of its headers ends the relay as
/// a failed exchange does, and the message says why.
pub proof fn law_refused_plan_fails_in_words()
    ensures
        step_of(PhaseModel::Sent, EventModel::ExchangeFailed("too many headers"@)) == Some(
            (PhaseModel::Failed(ErrorModel::Transport("too many headers"@)), ActionModel::Finish),
        ),
        render_of(Err::<ResponseModel, ErrorModel>(ErrorModel::Transport("too many headers"@)))
            == Err::<ResponseModel, Seq<char>>("HTTP request failed: "@ + "too many headers"@),
{
}

/// A complete exchange comes back as it is: every status code, from 0 to
/// 65535, and every body reach the caller unchanged.
pub proof fn law_status_and_body_preserved(request: RequestModel, status: u16, body: Seq<char>)
    requires
        method_of(request.method) is Some,
    ensures
        relay_of(request, ExchangeModel::Complete { status, body }) == Ok::<
            ResponseModel,
            ErrorModel,
        >(ResponseModel { status, body }),
        render_of(relay_of(request, ExchangeModel::Complete { status, body })) == Ok::<
            ResponseModel,
            Seq<char>,
        >(ResponseModel { status, body }),
{
}

/// Two relays of one request with an unsupported method give the same
/// failure and the same message, whatever the transport would have
/// reported either time.
pub proof fn law_unsupported_failure_is_stable(
    request: RequestModel,
    first: ExchangeModel,
    second: ExchangeModel,
)
    requires
        method_of(request.method) is None,
    ensures
        relay_of(request, first) is Err,
        relay_of(request, first) == relay_of(request, second),
        render_of(relay_of(request, first)) == render_of(relay_of(request, second)),
{
}

/// Taken step by step, a relay ends where a relay in one call ends: for a
/// planned request, the steps that a transport's report gives rise to lead
/// to a finished phase that holds the result of the whole relay. `seen` is
/// the status of a response whose body then failed.
pub proof fn law_steps_agree_with_relay(request: RequestModel, exchange: ExchangeModel, seen: u16)
    requires
        method_of(request.method) is Some,
    ensures
        step_of(PhaseModel::Building, EventModel::Submit(request)) == Some(
            (PhaseModel::Sent, ActionModel::Send(plan_of(request)->Ok_0)),
        ),
        result_of(last_phase_of(exchange, seen)) == Some(relay_of(request, exchange)),
{
}

/// The phase that a sent request reaches when the transport's report is
/// handed over event by event.
pub open spec fn last_phase_of(exchange: ExchangeModel, seen: u16) -> PhaseModel {
    match exchange {
        ExchangeModel::Failed(words) => step_of(
            PhaseModel::Sent,
            EventModel::ExchangeFailed(words),
        )->Some_0.0,
        ExchangeModel::BodyFailed(words) => step_of(
            step_of(PhaseModel::Sent, EventModel::Responded(seen))->Some_0.0,
            EventModel::BodyFailed(words),
        )->Some_0.0,
        ExchangeModel::Complete { status, body } => step_of(
            step_of(PhaseModel::Sent, EventModel::Responded(status))->Some_0.0,
            EventModel::BodyRead(body),
        )->Some_0.0,
    }
}

/// A relay that is over takes no further event, and one that is under way
/// has no result yet.
pub proof fn law_finished_is_final(phase: PhaseModel, event: EventModel)
    ensures
        result_of(phase) is Some ==> step_of(phase, event) is None,
        step_of(phase, event) is Some ==> result_of(phase) is None,
        step_of(phase, event) matches Some((next, action)) ==> (action == ActionModel::Finish
            <==> result_of(next) is Some),
{
}

} // verus!
