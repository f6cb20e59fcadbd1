//! HTTP requests as plain values.

use vstd::prelude::*;

verus! {

/// The method of a request.
#[derive(Debug, Clone, Copy, PartialEq, Eq, Structural)]
pub enum Method {
    Get,
    Post,
}

/// One request to send.
#[derive(Debug, Clone, PartialEq, Eq)]
pub struct ApiRequest {
    pub method: Method,
    pub url: String,
    /// The Bearer token to present.
    pub bearer: Option<String>,
    /// The JSON body.
    pub body: Option<String>,
    /// How many seconds the whole exchange may take; `None` for a stream.
    pub timeout_secs: Option<u64>,
}

/// What an [`ApiRequest`] says.
#[verifier::ext_equal]
pub struct ApiRequestView {
    pub method: Method,
    pub url: Seq<char>,
    pub bearer: Option<Seq<char>>,
    pub body: Option<Seq<char>>,
    pub timeout_secs: Option<u64>,
}

impl View for ApiRequest {
    type V = ApiRequestView;

    open spec fn view(&self) -> ApiRequestView {
        ApiRequestView {
            method: self.method,
            url: self.url@,
            bearer: self.bearer.deep_view(),
            body: self.body.deep_view(),
            timeout_secs: self.timeout_secs,
        }
    }
}

/// The status codes that report success.
pub open spec fn success(status: u16) -> bool {
    200 <= status < 300
}

/// Does `status` report success?
pub fn is_success(status: u16) -> (r: bool)
    ensures
        r == success(status),
{
    200 <= status && status < 300
}

/// Success is what the status codes of the 200s report, and no other.
pub proof fn success_is_the_two_hundreds(status: u16)
    ensures
        success(status) <==> status / 100 == 2,
{
}

} // verus!
