//! What the relay hands back when an exchange succeeds.

use vstd::prelude::*;

verus! {

/// A response: the status code as the server gave it, and the whole body.
#[derive(Clone, Debug, PartialEq, Eq)]
pub struct HttpResponse {
    pub status: u16,
    pub body: String,
}

/// What a [`HttpResponse`] holds, as plain values.
pub ghost struct ResponseModel {
    pub status: u16,
    pub body: Seq<char>,
}

impl View for HttpResponse {
    type V = ResponseModel;

    open spec fn view(&self) -> ResponseModel {
        ResponseModel { status: self.status, body: self.body@ }
    }
}

} // verus!
