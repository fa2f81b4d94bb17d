//! What the proxy is told once, before it accepts its first connection.

use vstd::prelude::*;
use vstd::utf8::encode_utf8;
use crate::proxy::auth::{credential_model, Auth};
use crate::proxy::encoding::{basic_token, basic_token_of, encodable};
use crate::proxy::request::text_model;

verus! {

/// The settings every connection reads and none changes.
///
/// Destinations are matched against the list of allowed domains by exact
/// equality of the host, case included. A client whose credential does not
/// match is answered `401 Unauthorized`.
#[derive(Debug)]
pub struct ProxyConfig {
    /// The credential for the SOCKS5 gateway; without one no authentication
    /// is offered to it.
    pub upstream: Option<Auth>,
    /// The value a client's `Proxy-Authorization` header must have; without
    /// one every client may pass.
    pub proxy_token: Option<String>,
    /// The hosts that may be reached; without a list every host may.
    pub allowed_domains: Option<Vec<String>>,
    /// The value of the `Authorization` header the proxy puts on forwarded
    /// requests; without one they are forwarded as they came.
    pub forward_token: Option<String>,
}

/// The settings with their texts as sequences of characters.
pub struct ConfigModel {
    pub upstream: Option<(Seq<char>, Seq<char>)>,
    pub proxy_token: Option<Seq<char>>,
    pub allowed_domains: Option<Seq<Seq<char>>>,
    pub forward_token: Option<Seq<char>>,
}

/// The list of allowed domains with each as a sequence of characters.
pub open spec fn domains_model(domains: Option<Vec<String>>) -> Option<Seq<Seq<char>>> {
    match domains {
        Some(list) => Some(Seq::new(list@.len(), |i: int| list@[i]@)),
        None => None,
    }
}

impl View for ProxyConfig {
    type V = ConfigModel;

    open spec fn view(&self) -> ConfigModel {
        ConfigModel {
            upstream: credential_model(self.upstream),
            proxy_token: text_model(self.proxy_token),
            allowed_domains: domains_model(self.allowed_domains),
            forward_token: text_model(self.forward_token),
        }
    }
}

/// Settings that ask nothing of clients, keep nothing from them, and add
/// nothing to their requests.
pub open spec fn open_config() -> ConfigModel {
    ConfigModel { upstream: None, proxy_token: None, allowed_domains: None, forward_token: None }
}

impl ConfigModel {
    /// Whether nothing is asked of clients and nothing is kept from them.
    pub open spec fn unrestricted(self) -> bool {
        self.proxy_token is None && self.allowed_domains is None
    }
}

impl ProxyConfig {
    /// Settings with nothing configured: no credential for the gateway, none
    /// asked of clients, every destination allowed, requests forwarded as
    /// they come.
    pub fn new() -> (config: Self)
        ensures
            config@ == open_config(),
    {
        ProxyConfig { upstream: None, proxy_token: None, allowed_domains: None, forward_token: None }
    }

    /// Sets the credential presented to the SOCKS5 gateway.
    pub fn with_upstream(self, auth: Auth) -> (config: Self)
        ensures
            config@ == (ConfigModel { upstream: Some(auth@), ..self@ }),
    {
        ProxyConfig {
            upstream: Some(auth),
            proxy_token: self.proxy_token,
            allowed_domains: self.allowed_domains,
            forward_token: self.forward_token,
        }
    }

    /// Restricts the destinations to the hosts listed.
    pub fn with_allowed_domains(self, domains: Vec<String>) -> (config: Self)
        ensures
            config@ == (ConfigModel {
                allowed_domains: domains_model(Some(domains)),
                ..self@
            }),
    {
        ProxyConfig {
            upstream: self.upstream,
            proxy_token: self.proxy_token,
            allowed_domains: Some(domains),
            forward_token: self.forward_token,
        }
    }

    /// Requires clients to present `credential`, written as `user:password`,
    /// under the `Basic` scheme.
    pub fn with_proxy_credential(self, credential: &str) -> (config: Self)
        requires
            encodable(encode_utf8(credential@).len()),
        ensures
            config@ == (ConfigModel {
                proxy_token: Some(basic_token_of(encode_utf8(credential@))),
                ..self@
            }),
    {
        ProxyConfig {
            upstream: self.upstream,
            proxy_token: Some(basic_token(credential)),
            allowed_domains: self.allowed_domains,
            forward_token: self.forward_token,
        }
    }

    /// Puts `credential`, written as `user:password`, on every forwarded
    /// request under the `Basic` scheme.
    pub fn with_forward_credential(self, credential: &str) -> (config: Self)
        requires
            encodable(encode_utf8(credential@).len()),
        ensures
            config@ == (ConfigModel {
                forward_token: Some(basic_token_of(encode_utf8(credential@))),
                ..self@
            }),
    {
        ProxyConfig {
            upstream: self.upstream,
            proxy_token: self.proxy_token,
            allowed_domains: self.allowed_domains,
            forward_token: Some(basic_token(credential)),
        }
    }
}

} // verus!
