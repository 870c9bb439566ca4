//! Reading what the HTTP client hands back, as events for the relay. The
//! caller waits for the client; what came of the wait is read here.

use vstd::prelude::*;
use vstd::string::*;
use crate::machine::{Event, EventModel};

verus! {

/// `reqwest::Response`, a response whose body has not been read. Opaque
/// here.
#[verifier::external_type_specification]
#[verifier::external_body]
pub struct ExResponse(reqwest::Response);

/// `reqwest::Error`, the client's error. Opaque here.
#[verifier::external_type_specification]
#[verifier::external_body]
pub struct ExError(reqwest::Error);

/// The status code that a response carries, as `reqwest::Response::status`
/// gives it, as a number.
pub uninterp spec fn status_of(response: reqwest::Response) -> u16;

/// The words in which `reqwest::Error` describes itself when displayed.
pub uninterp spec fn words_of(error: reqwest::Error) -> Seq<char>;

/// `reqwest::Response::status`, then `StatusCode::as_u16`: the response's
/// status code as a number. The contract only names it.
#[verifier::external_body]
fn response_status(response: &reqwest::Response) -> (status: u16)
    ensures
        status == status_of(*response),
{
    response.status().as_u16()
}

/// The `Display` of `reqwest::Error`, through `to_string`: the kind of the
/// error and, where it has one, the address. The contract only names the
/// text.
#[verifier::external_body]
fn error_words(error: &reqwest::Error) -> (words: String)
    ensures
        words@ == words_of(*error),
{
    error.to_string()
}

/// The event that the outcome of sending stands for. A response is reported
/// with its status and handed back, for its body to be read; an error is
/// reported in its own words.
pub fn sent_event(sent: Result<reqwest::Response, reqwest::Error>) -> (reported: (
    Event,
    Option<reqwest::Response>,
))
    ensures
        match sent {
            Ok(response) => {
                &&& reported.0@ == EventModel::Responded(status_of(response))
                &&& reported.1 == Some(response)
            },
            Err(error) => {
                &&& reported.0@ == EventModel::ExchangeFailed(words_of(error))
                &&& reported.1 is None
            },
        },
{
    match sent {
        Ok(response) => {
            let status = response_status(&response);
            (Event::Responded(status), Some(response))
        },
        Err(error) => (Event::ExchangeFailed(error_words(&error)), None),
    }
}

/// The event for a plan that was refused before anything was sent, because
/// it holds more headers than can be assembled: the exchange failed, in
/// these words.
pub fn refused_event() -> (event: Event)
    ensures
        event@ == EventModel::ExchangeFailed("too many headers"@),
{
    Event::ExchangeFailed(String::from_str("too many headers"))
}

/// The event that the outcome of reading a body stands for: the text as it
/// was read, or the error in its own words.
pub fn read_event(read: Result<String, reqwest::Error>) -> (event: Event)
    ensures
        match read {
            Ok(text) => event@ == EventModel::BodyRead(text@),
            Err(error) => event@ == EventModel::BodyFailed(words_of(error)),
        },
{
    match read {
        Ok(text) => Event::BodyRead(text),
        Err(error) => Event::BodyFailed(error_words(&error)),
    }
}

} // verus!
