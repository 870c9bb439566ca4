//! The relay itself: from a request to a plan for the transport, and from
//! what the transport reports to the result.

use vstd::prelude::*;
use crate::error::{message_of, ErrorModel, RelayError};
use crate::method::{method_of, Method};
use crate::request::{HttpRequest, Outbound, OutboundModel, RequestModel};
use crate::response::{HttpResponse, ResponseModel};

verus! {

/// What the transport reports of one exchange.
#[derive(Clone, Debug, PartialEq, Eq)]
pub enum Exchange {
    /// No response came: the address was malformed, the name did not
    /// resolve, the connection or the handshake failed, or time ran out.
    /// Holds the transport's words for it.
    Failed(String),
    /// A response came, but reading its body failed. Holds the transport's
    /// words for it.
    BodyFailed(String),
    /// A response came and its body was read to the end.
    Complete { status: u16, body: String },
}

/// An [`Exchange`] with its texts as plain sequences of characters.
pub ghost enum ExchangeModel {
    Failed(Seq<char>),
    BodyFailed(Seq<char>),
    Complete { status: u16, body: Seq<char> },
}

impl View for Exchange {
    type V = ExchangeModel;

    open spec fn view(&self) -> ExchangeModel {
        match self {
            Exchange::Failed(words) => ExchangeModel::Failed(words@),
            Exchange::BodyFailed(words) => ExchangeModel::BodyFailed(words@),
            Exchange::Complete { status, body } => ExchangeModel::Complete {
                status: *status,
                body: body@,
            },
        }
    }
}

/// The result of a relay, or of one of its steps, over the models.
pub open spec fn result_view<T: View>(result: Result<T, RelayError>) -> Result<T::V, ErrorModel> {
    match result {
        Ok(value) => Ok(value@),
        Err(error) => Err(error@),
    }
}

/// The result as the user interface gets it: the error is its message.
pub open spec fn rendered_view(result: Result<HttpResponse, String>) -> Result<
    ResponseModel,
    Seq<char>,
> {
    match result {
        Ok(response) => Ok(response@),
        Err(message) => Err(message@),
    }
}

/// The plan that a request stands for: its verb read from the method
/// string, its address and body as given, and its headers in the order
/// given, each of them kept. A request whose method is no supported verb has
/// no plan, and the error holds the method string.
pub open spec fn plan_of(request: RequestModel) -> Result<OutboundModel, ErrorModel> {
    match method_of(request.method) {
        Some(method) => Ok(
            OutboundModel {
                method,
                url: request.url,
                headers: match request.headers {
                    Some(pairs) => pairs,
                    None => Seq::empty(),
                },
                body: request.body,
            },
        ),
        None => Err(ErrorModel::UnsupportedMethod(request.method)),
    }
}

/// What the caller gets for a report of the transport: a complete exchange
/// gives its status and body untouched, each failure its own error with the
/// transport's words.
pub open spec fn outcome_of(exchange: ExchangeModel) -> Result<ResponseModel, ErrorModel> {
    match exchange {
        ExchangeModel::Failed(words) => Err(ErrorModel::Transport(words)),
        ExchangeModel::BodyFailed(words) => Err(ErrorModel::BodyRead(words)),
        ExchangeModel::Complete { status, body } => Ok(ResponseModel { status, body }),
    }
}

/// What a whole relay gives for a request, where the transport would report
/// `exchange` if it were asked. A request without a plan fails whatever the
/// transport would have said.
pub open spec fn relay_of(request: RequestModel, exchange: ExchangeModel) -> Result<
    ResponseModel,
    ErrorModel,
> {
    match plan_of(request) {
        Ok(_) => outcome_of(exchange),
        Err(error) => Err(error),
    }
}

/// The result with its error turned into the message.
pub open spec fn render_of(result: Result<ResponseModel, ErrorModel>) -> Result<
    ResponseModel,
    Seq<char>,
> {
    match result {
        Ok(response) => Ok(response),
        Err(error) => Err(message_of(error)),
    }
}

/// Checks a request and makes the plan for the transport. Fails, before
/// anything is sent, exactly when the method is no supported verb.
pub fn prepare(request: HttpRequest) -> (plan: Result<Outbound, RelayError>)
    ensures
        result_view(plan) == plan_of(request@),
{
    let HttpRequest { url, method, headers, body } = request;
    match Method::parse(method.as_str()) {
        Some(verb) => {
            let headers = match headers {
                Some(pairs) => pairs,
                None => Vec::new(),
            };
            let plan = Outbound { method: verb, url, headers, body };
            proof {
                // An absent list and an empty one plan the same: compare by
                // the elements.
                assert(plan@.headers =~= plan_of(request@)->Ok_0.headers);
            }
            Ok(plan)
        },
        None => Err(RelayError::UnsupportedMethod(method)),
    }
}

/// Turns the transport's report into the relay's result.
pub fn conclude(exchange: Exchange) -> (result: Result<HttpResponse, RelayError>)
    ensures
        result_view(result) == outcome_of(exchange@),
{
    match exchange {
        Exchange::Failed(words) => Err(RelayError::Transport(words)),
        Exchange::BodyFailed(words) => Err(RelayError::BodyRead(words)),
        Exchange::Complete { status, body } => Ok(HttpResponse { status, body }),
    }
}

/// Relays one request through `transport`, which is handed the plan and
/// reports the exchange. A request without a plan fails at once and
/// `transport` is not called; otherwise it is called once, with the plan of
/// the request, and the result is what its report stands for.
pub fn relay<T: FnOnce(Outbound) -> Exchange>(request: HttpRequest, transport: T) -> (result:
    Result<HttpResponse, RelayError>)
    requires
        forall|plan: Outbound|
            plan_of(request@) == Ok::<OutboundModel, ErrorModel>(plan@) ==> call_requires(
                transport,
                (plan,),
            ),
    ensures
        plan_of(request@) is Err ==> result_view(result) == Err::<ResponseModel, ErrorModel>(
            plan_of(request@)->Err_0,
        ),
        plan_of(request@) is Ok ==> exists|plan: Outbound, exchange: Exchange|
            {
                &&& plan_of(request@) == Ok::<OutboundModel, ErrorModel>(plan@)
                &&& #[trigger] call_ensures(transport, (plan,), exchange)
                &&& result_view(result) == relay_of(request@, exchange@)
            },
{
    match prepare(request) {
        Ok(plan) => {
            let exchange = transport(plan);
            conclude(exchange)
        },
        Err(error) => Err(error),
    }
}

/// The result as it crosses to the user interface: a response as it is, an
/// error as its message.
pub fn render(result: Result<HttpResponse, RelayError>) -> (rendered: Result<HttpResponse, String>)
    ensures
        rendered_view(rendered) == render_of(result_view(result)),
{
    match result {
        Ok(response) => Ok(response),
        Err(error) => Err(error.message()),
    }
}

} // verus!
