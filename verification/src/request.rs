//! What the user interface asks for, and what the transport is told to send.

use vstd::prelude::*;
use crate::method::Method;

verus! {

/// A request as the user interface describes it. Nothing in it has been
/// checked: `method` may be any string.
#[derive(Clone, Debug, PartialEq, Eq)]
pub struct HttpRequest {
    pub url: String,
    pub method: String,
    /// Header pairs, name first, in the order in which they are to be
    /// applied. `None` means that none is sent.
    pub headers: Option<Vec<(String, String)>>,
    /// The body, sent as it stands. `None` means that none is sent.
    pub body: Option<String>,
}

/// What a [`HttpRequest`] holds, as plain sequences of characters.
pub ghost struct RequestModel {
    pub url: Seq<char>,
    pub method: Seq<char>,
    pub headers: Option<Seq<(Seq<char>, Seq<char>)>>,
    pub body: Option<Seq<char>>,
}

impl View for HttpRequest {
    type V = RequestModel;

    open spec fn view(&self) -> RequestModel {
        RequestModel {
            url: self.url@,
            method: self.method@,
            headers: self.headers.deep_view(),
            body: self.body.deep_view(),
        }
    }
}

/// A checked request, ready for the transport: the verb is one of the
/// supported ones, and the headers are a plain list, empty where none is
/// sent.
#[derive(Clone, Debug, PartialEq, Eq)]
pub struct Outbound {
    pub method: Method,
    pub url: String,
    pub headers: Vec<(String, String)>,
    pub body: Option<String>,
}

/// What an [`Outbound`] holds, as plain sequences of characters.
pub ghost struct OutboundModel {
    pub method: Method,
    pub url: Seq<char>,
    pub headers: Seq<(Seq<char>, Seq<char>)>,
    pub body: Option<Seq<char>>,
}

impl View for Outbound {
    type V = OutboundModel;

    open spec fn view(&self) -> OutboundModel {
        OutboundModel {
            method: self.method,
            url: self.url@,
            headers: self.headers.deep_view(),
            body: self.body.deep_view(),
        }
    }
}

} // verus!
