//! Handing a plan to the HTTP client: the one place where the relay meets
//! `reqwest`. The request that comes out is not sent here; sending it, and
//! waiting for the response, is the caller's part.
//!
//! A request under construction is opaque: what the client makes of an
//! address or of a header is its own business. So the builders that the
//! client's functions return are given names, and [`assemble`] states which
//! of them it returns: which functions were called, on what, in what order.
//!
//! The client keeps headers in a map of bounded size and does not return
//! from a call that would outgrow it. [`assemble`] therefore takes plans of
//! at most [`MAX_HEADERS`] pairs, and [`try_assemble`] refuses the others.

use vstd::prelude::*;
use crate::method::Method;
use crate::request::{Outbound, OutboundModel};

verus! {

/// `reqwest::Client`, the HTTP client. Opaque here.
#[verifier::external_type_specification]
#[verifier::external_body]
pub struct ExClient(reqwest::Client);

/// `reqwest::RequestBuilder`, a request under construction. Opaque here.
#[verifier::external_type_specification]
#[verifier::external_body]
pub struct ExRequestBuilder(reqwest::RequestBuilder);

/// The most header pairs that a plan may hold to be assembled.
///
/// The client's header map fails to grow, and the call that asked for it
/// does not return, once its table has reached 32768 slots and either holds
/// 24576 names or, with names whose places in the table crowd one another,
/// holds a fifth of the slots: 6554. A builder fresh from the client holds
/// at most one header, so after that one and 6552 pairs the last of 6553
/// pairs is still applied to fewer than 6554.
pub const MAX_HEADERS: usize = 6553;

/// The number of header values that the request in a builder holds, names
/// that occur twice counted twice; 0 where the builder holds an error
/// instead of a request.
pub uninterp spec fn applied_of(builder: reqwest::RequestBuilder) -> nat;

/// The builder that `reqwest::Client::get` returns for an address.
pub uninterp spec fn get_of(client: reqwest::Client, url: Seq<char>) -> reqwest::RequestBuilder;

/// The builder that `reqwest::Client::post` returns for an address.
pub uninterp spec fn post_of(client: reqwest::Client, url: Seq<char>) -> reqwest::RequestBuilder;

/// The builder that `reqwest::Client::put` returns for an address.
pub uninterp spec fn put_of(client: reqwest::Client, url: Seq<char>) -> reqwest::RequestBuilder;

/// The builder that `reqwest::Client::delete` returns for an address.
pub uninterp spec fn delete_of(client: reqwest::Client, url: Seq<char>) -> reqwest::RequestBuilder;

/// The builder that `reqwest::RequestBuilder::header` makes of a builder, a
/// name and a value.
pub uninterp spec fn header_of(
    builder: reqwest::RequestBuilder,
    name: Seq<char>,
    value: Seq<char>,
) -> reqwest::RequestBuilder;

/// The builder that `reqwest::RequestBuilder::body` makes of a builder and
/// a text.
pub uninterp spec fn body_of(
    builder: reqwest::RequestBuilder,
    body: Seq<char>,
) -> reqwest::RequestBuilder;

/// `reqwest::Client::get`: begins a GET request to `url`. It returns for
/// every string; an address that does not parse is kept in the builder as an
/// error that sending brings out. The contract names the builder (the same
/// client and address give the same one) and says that it holds at most one
/// header: the authorization made of credentials in the address, if any.
#[verifier::external_body]
fn begin_get(client: &reqwest::Client, url: &str) -> (builder: reqwest::RequestBuilder)
    ensures
        builder == get_of(*client, url@),
        applied_of(builder) <= 1,
{
    client.get(url)
}

/// `reqwest::Client::post`: as `begin_get`, for POST.
#[verifier::external_body]
fn begin_post(client: &reqwest::Client, url: &str) -> (builder: reqwest::RequestBuilder)
    ensures
        builder == post_of(*client, url@),
        applied_of(builder) <= 1,
{
    client.post(url)
}

/// `reqwest::Client::put`: as `begin_get`, for PUT.
#[verifier::external_body]
fn begin_put(client: &reqwest::Client, url: &str) -> (builder: reqwest::RequestBuilder)
    ensures
        builder == put_of(*client, url@),
        applied_of(builder) <= 1,
{
    client.put(url)
}

/// `reqwest::Client::delete`: as `begin_get`, for DELETE.
#[verifier::external_body]
fn begin_delete(client: &reqwest::Client, url: &str) -> (builder: reqwest::RequestBuilder)
    ensures
        builder == delete_of(*client, url@),
        applied_of(builder) <= 1,
{
    client.delete(url)
}

/// `reqwest::RequestBuilder::header`: appends one header, beside any that
/// has the same name. A name or value that is no legal header is kept in
/// the builder as an error that sending brings out. The call ends in
/// `http::HeaderMap::append`, which panics where the map cannot grow; that
/// needs at least 6554 names in the map, which `requires` leaves out. The
/// contract names the builder (the same builder, name and value give the
/// same one) and says that it holds at most one header more.
#[verifier::external_body]
fn add_header(builder: reqwest::RequestBuilder, name: &str, value: &str) -> (next:
    reqwest::RequestBuilder)
    requires
        applied_of(builder) <= MAX_HEADERS,
    ensures
        next == header_of(builder, name@, value@),
        applied_of(next) <= applied_of(builder) + 1,
{
    builder.header(name, value)
}

/// `reqwest::RequestBuilder::body`: sets the body to the string's bytes.
/// The contract only names the builder: the same builder and text give the
/// same one.
#[verifier::external_body]
fn set_body(builder: reqwest::RequestBuilder, body: String) -> (next: reqwest::RequestBuilder)
    ensures
        next == body_of(builder, body@),
{
    builder.body(body)
}

/// The builder with which a request for a verb begins: the client's own
/// function for that verb, called on the address.
pub open spec fn begun_of(
    client: reqwest::Client,
    method: Method,
    url: Seq<char>,
) -> reqwest::RequestBuilder {
    match method {
        Method::Get => get_of(client, url),
        Method::Post => post_of(client, url),
        Method::Put => put_of(client, url),
        Method::Delete => delete_of(client, url),
    }
}

/// A builder after a list of headers has been applied to it: each pair once,
/// the first one first, the last one last.
pub open spec fn headed_of(
    builder: reqwest::RequestBuilder,
    headers: Seq<(Seq<char>, Seq<char>)>,
) -> reqwest::RequestBuilder
    decreases headers.len(),
{
    if headers.len() == 0 {
        builder
    } else {
        header_of(headed_of(builder, headers.drop_last()), headers.last().0, headers.last().1)
    }
}

/// The request that a plan describes: begun for its verb and address, then
/// its headers applied in order, then its body attached if there is one.
pub open spec fn assembled_of(
    client: reqwest::Client,
    plan: OutboundModel,
) -> reqwest::RequestBuilder {
    let headed = headed_of(begun_of(client, plan.method, plan.url), plan.headers);
    match plan.body {
        Some(text) => body_of(headed, text),
        None => headed,
    }
}

/// Makes the request that a plan describes, on `client`. The plan holds at
/// most [`MAX_HEADERS`] pairs: the client's header map cannot be trusted to
/// hold more. An address or a header that the client cannot accept shows
/// when the request is sent.
pub fn assemble(client: &reqwest::Client, plan: Outbound) -> (builder: reqwest::RequestBuilder)
    requires
        plan@.headers.len() <= MAX_HEADERS,
    ensures
        builder == assembled_of(*client, plan@),
{
    let Outbound { method, url, headers, body } = plan;
    let mut builder = match method {
        Method::Get => begin_get(client, url.as_str()),
        Method::Post => begin_post(client, url.as_str()),
        Method::Put => begin_put(client, url.as_str()),
        Method::Delete => begin_delete(client, url.as_str()),
    };
    let ghost begun = builder;
    let ghost pairs = headers.deep_view();
    let count: usize = headers.len();
    let mut at: usize = 0;
    while at < count
        invariant
            at <= count,
            count == headers@.len(),
            pairs == headers.deep_view(),
            count <= MAX_HEADERS,
            builder == headed_of(begun, pairs.take(at as int)),
            applied_of(builder) <= 1 + at,
        decreases count - at,
    {
        builder = add_header(builder, headers[at].0.as_str(), headers[at].1.as_str());
        proof {
            let upto = pairs.take(at + 1);
            assert(upto.drop_last() =~= pairs.take(at as int));
            assert(upto.last() == (headers@[at as int].0@, headers@[at as int].1@));
        }
        at += 1;
    }
    proof {
        assert(pairs.take(count as int) =~= pairs);
    }
    match body {
        Some(text) => set_body(builder, text),
        None => builder,
    }
}

/// Makes the request that a plan describes, if the plan is one that
/// [`assemble`] takes: `None`, with nothing made, exactly for a plan of more
/// than [`MAX_HEADERS`] pairs.
pub fn try_assemble(client: &reqwest::Client, plan: Outbound) -> (made: Option<
    reqwest::RequestBuilder,
>)
    ensures
        made is Some <==> plan@.headers.len() <= MAX_HEADERS,
        made is Some ==> made->Some_0 == assembled_of(*client, plan@),
{
    if plan.headers.len() <= MAX_HEADERS {
        Some(assemble(client, plan))
    } else {
        None
    }
}

} // verus!
