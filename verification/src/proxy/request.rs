//! What the proxy reads of an incoming request before it acts.

use vstd::prelude::*;
use crate::proxy::target::{resolved, TargetAddress, TargetModel};

verus! {

/// The host that the `http` crate finds in a request target, if the target
/// parses and names one.
pub uninterp spec fn uri_host_of(uri: Seq<char>) -> Option<Seq<char>>;

/// The port that the `http` crate finds in a request target, if the target
/// parses and names one.
pub uninterp spec fn uri_port_of(uri: Seq<char>) -> Option<u16>;

/// The characters of a text that may be absent.
pub open spec fn text_model(text: Option<String>) -> Option<Seq<char>> {
    match text {
        Some(t) => Some(t@),
        None => None,
    }
}

/// The bytes of a header value that may be absent.
pub open spec fn bytes_model(bytes: Option<Vec<u8>>) -> Option<Seq<u8>> {
    match bytes {
        Some(b) => Some(b@),
        None => None,
    }
}

/// Parses `uri` with the `http` crate and calls `Uri::host` on the result.
/// Trusted: the answer is a function of the text alone; it is `None` where
/// the text does not parse or holds no authority.
#[verifier::external_body]
fn uri_host(uri: &str) -> (host: Option<String>)
    ensures
        text_model(host) == uri_host_of(uri@),
{
    match uri.parse::<http::Uri>() {
        Ok(parsed) => match parsed.host() {
            Some(host) => Some(host.to_owned()),
            None => None,
        },
        Err(_) => None,
    }
}

/// Parses `uri` with the `http` crate and calls `Uri::port_u16` on the
/// result. Trusted: the answer is a function of the text alone; it is `None`
/// where the text does not parse or holds no port.
#[verifier::external_body]
fn uri_port(uri: &str) -> (port: Option<u16>)
    ensures
        port == uri_port_of(uri@),
{
    match uri.parse::<http::Uri>() {
        Ok(parsed) => parsed.port_u16(),
        Err(_) => None,
    }
}

/// The part of a request that decides what the proxy does with it: the
/// method, the request target as it was written, and the value of the first
/// `Proxy-Authorization` header, if there is one.
#[derive(Debug, PartialEq, Eq)]
pub struct RequestHead {
    pub method: String,
    pub uri: String,
    pub proxy_authorization: Option<Vec<u8>>,
}

/// Whether a method asks for a tunnel.
pub open spec fn is_connect_method(method: Seq<char>) -> bool {
    method == "CONNECT"@
}

impl RequestHead {
    pub fn new(method: String, uri: String, proxy_authorization: Option<Vec<u8>>) -> (head: Self)
        ensures
            head.method == method,
            head.uri == uri,
            head.proxy_authorization == proxy_authorization,
    {
        RequestHead { method, uri, proxy_authorization }
    }

    /// Whether the request asks for a tunnel. Methods are matched by case.
    pub fn is_connect(&self) -> (yes: bool)
        ensures
            yes == is_connect_method(self.method@),
    {
        let connect = "CONNECT".to_owned();
        self.method == connect
    }

    /// The host of the request target.
    pub(crate) fn host(&self) -> (host: Option<String>)
        ensures
            text_model(host) == uri_host_of(self.uri@),
    {
        uri_host(self.uri.as_str())
    }

    /// The port of the request target.
    pub(crate) fn port(&self) -> (port: Option<u16>)
        ensures
            port == uri_port_of(self.uri@),
    {
        uri_port(self.uri.as_str())
    }

    /// The destination the request names, if it names one: the host and
    /// port of its target, with port 80 for a request that is no tunnel and
    /// names no port.
    pub fn destination(&self) -> (target: Option<TargetAddress>)
        ensures
            match target {
                Some(t) => Some(t@) == self.destination_model(),
                None => self.destination_model() is None,
            },
    {
        let host = self.host();
        let port = self.port();
        let host_text: Option<&str> = match &host {
            Some(text) => Some(text.as_str()),
            None => None,
        };
        TargetAddress::resolve(self.is_connect(), host_text, port)
    }

    /// The destination the request names, as a value.
    pub open spec fn destination_model(&self) -> Option<TargetModel> {
        resolved(is_connect_method(self.method@), uri_host_of(self.uri@), uri_port_of(self.uri@))
    }
}

} // verus!
