//! The responses the proxy writes itself, as plain values.

use vstd::prelude::*;

verus! {

pub const OK: u16 = 200;

pub const BAD_REQUEST: u16 = 400;

pub const UNAUTHORIZED: u16 = 401;

pub const FORBIDDEN: u16 = 403;

pub const PROXY_AUTHENTICATION_REQUIRED: u16 = 407;

pub const INTERNAL_SERVER_ERROR: u16 = 500;

pub const BAD_GATEWAY: u16 = 502;

/// One header line: a name and its value, in the case they are written in.
#[derive(Debug, PartialEq, Eq)]
pub struct Header {
    pub name: String,
    pub value: String,
}

/// A response in full: status, headers in the order they are sent, body.
#[derive(Debug, PartialEq, Eq)]
pub struct HttpResponse {
    pub status: u16,
    pub headers: Vec<Header>,
    pub body: String,
}

/// What a response says, with its texts as sequences of characters.
pub struct ResponseModel {
    pub status: u16,
    pub headers: Seq<(Seq<char>, Seq<char>)>,
    pub body: Seq<char>,
}

impl View for Header {
    type V = (Seq<char>, Seq<char>);

    open spec fn view(&self) -> (Seq<char>, Seq<char>) {
        (self.name@, self.value@)
    }
}

impl View for HttpResponse {
    type V = ResponseModel;

    open spec fn view(&self) -> ResponseModel {
        ResponseModel {
            status: self.status,
            headers: Seq::new(self.headers@.len(), |i: int| self.headers@[i]@),
            body: self.body@,
        }
    }
}

/// A response with a status and a body and no header.
pub open spec fn bare(status: u16, body: Seq<char>) -> ResponseModel {
    ResponseModel { status, headers: Seq::empty(), body }
}

/// `response` with one more header after those it has.
pub open spec fn extended(response: ResponseModel, name: Seq<char>, value: Seq<char>)
    -> ResponseModel {
    ResponseModel {
        status: response.status,
        headers: response.headers.push((name, value)),
        body: response.body,
    }
}

/// The response that accepts a request for a tunnel: `200`, no header, an
/// empty body.
pub open spec fn established() -> ResponseModel {
    bare(OK, Seq::empty())
}

/// What a response that may be absent says.
pub open spec fn answer_model(response: Option<HttpResponse>) -> Option<ResponseModel> {
    match response {
        Some(r) => Some(r@),
        None => None,
    }
}

impl HttpResponse {
    /// A response with a status, no header and an empty body.
    pub fn without_body(status: u16) -> (response: Self)
        ensures
            response@ == bare(status, Seq::empty()),
    {
        let response = HttpResponse { status, headers: Vec::new(), body: String::new() };
        assert(response@.headers =~= Seq::empty());
        response
    }

    /// The response that accepts a request for a tunnel.
    pub fn established() -> (response: Self)
        ensures
            response@ == established(),
    {
        HttpResponse::without_body(OK)
    }

    pub fn new(status: u16, body: &str) -> (response: Self)
        ensures
            response@ == bare(status, body@),
    {
        let response = HttpResponse { status, headers: Vec::new(), body: body.to_owned() };
        assert(response@.headers =~= Seq::empty());
        response
    }

    /// Adds a header after those already there.
    pub fn with_header(self, name: &str, value: &str) -> (response: Self)
        ensures
            response@ == extended(self@, name@, value@),
    {
        let mut headers = self.headers;
        headers.push(Header { name: name.to_owned(), value: value.to_owned() });
        let response = HttpResponse { status: self.status, headers, body: self.body };
        assert(response@.headers =~= self@.headers.push((name@, value@)));
        response
    }

    /// Whether the status reports a failure behind the proxy.
    pub fn is_server_error(&self) -> (yes: bool)
        ensures
            yes == (500 <= self@.status < 600),
    {
        500 <= self.status && self.status < 600
    }
}

} // verus!
