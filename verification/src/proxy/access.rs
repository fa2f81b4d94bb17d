//! Access control: who may pass, and to which destinations.

use vstd::prelude::*;
use vstd::utf8::encode_utf8;
use crate::proxy::config::ProxyConfig;
use crate::proxy::response::{
    bare, extended, HttpResponse, ResponseModel, BAD_REQUEST, FORBIDDEN,
    PROXY_AUTHENTICATION_REQUIRED, UNAUTHORIZED,
};
use crate::proxy::target::{host_model, resolved};

verus! {

/// Why a request is turned away.
#[derive(Debug, Clone, Copy, PartialEq, Eq, Structural)]
pub enum Denial {
    /// A credential is required and the request carries none.
    CredentialsMissing,
    /// The request carries a credential that is not the required one.
    CredentialsRejected,
    /// The destination is not among the allowed domains.
    DomainNotAllowed,
    /// The request names no destination that can be reached. `tunnel` says
    /// whether it asked for a tunnel.
    NoDestination { tunnel: bool },
}

/// What access control decides of one request.
#[derive(Debug, Clone, Copy, PartialEq, Eq, Structural)]
pub enum Verdict {
    Allow,
    Deny(Denial),
}

/// Whether a presented header value is the required one, byte for byte.
pub open spec fn token_matches(required: Seq<char>, presented: Seq<u8>) -> bool {
    presented == encode_utf8(required)
}

/// Whether a host is one of the allowed domains, by exact equality.
pub open spec fn domain_allowed(allowed: Seq<Seq<char>>, host: Seq<char>) -> bool {
    allowed.contains(host)
}

/// The rule of access control. The checks run in this order and the first that fails
/// decides: the credential, then the allowed domains, then the destination.
pub open spec fn verdict_of(
    required: Option<Seq<char>>,
    allowed: Option<Seq<Seq<char>>>,
    presented: Option<Seq<u8>>,
    tunnel: bool,
    host: Option<Seq<char>>,
    port: Option<u16>,
) -> Verdict {
    if required is Some && presented is None {
        Verdict::Deny(Denial::CredentialsMissing)
    } else if required is Some && !token_matches(required->0, presented->0) {
        Verdict::Deny(Denial::CredentialsRejected)
    } else if allowed is Some && host is Some && !domain_allowed(allowed->0, host->0) {
        Verdict::Deny(Denial::DomainNotAllowed)
    } else if resolved(tunnel, host, port) is None {
        Verdict::Deny(Denial::NoDestination { tunnel })
    } else {
        Verdict::Allow
    }
}

/// The status that answers a denial.
pub open spec fn denial_status(denial: Denial) -> u16 {
    match denial {
        Denial::CredentialsMissing => PROXY_AUTHENTICATION_REQUIRED,
        Denial::CredentialsRejected => UNAUTHORIZED,
        Denial::DomainNotAllowed => FORBIDDEN,
        Denial::NoDestination { .. } => BAD_REQUEST,
    }
}

/// The response that answers a denial. A request for a tunnel that names no
/// address is told so; any other request that names no host gets `400` with
/// an empty body.
pub open spec fn denial_response(denial: Denial) -> ResponseModel {
    match denial {
        Denial::CredentialsMissing => extended(
            bare(PROXY_AUTHENTICATION_REQUIRED, "Proxy Authentication Required"@),
            "Proxy-Authenticate"@,
            "Basic realm=\"proxy\""@,
        ),
        Denial::CredentialsRejected => bare(UNAUTHORIZED, "Unauthorized"@),
        Denial::DomainNotAllowed => bare(
            FORBIDDEN,
            "Access to this domain is not allowed through the proxy."@,
        ),
        Denial::NoDestination { tunnel } => if tunnel {
            bare(BAD_REQUEST, "CONNECT must be to a socket address"@)
        } else {
            bare(BAD_REQUEST, Seq::empty())
        },
    }
}

impl Denial {
    pub fn status(&self) -> (status: u16)
        ensures
            status == denial_status(*self),
    {
        match self {
            Denial::CredentialsMissing => PROXY_AUTHENTICATION_REQUIRED,
            Denial::CredentialsRejected => UNAUTHORIZED,
            Denial::DomainNotAllowed => FORBIDDEN,
            Denial::NoDestination { .. } => BAD_REQUEST,
        }
    }

    /// The response to send in place of proxying.
    pub fn response(&self) -> (response: HttpResponse)
        ensures
            response@ == denial_response(*self),
    {
        match self {
            Denial::CredentialsMissing => HttpResponse::new(
                PROXY_AUTHENTICATION_REQUIRED,
                "Proxy Authentication Required",
            ).with_header("Proxy-Authenticate", "Basic realm=\"proxy\""),
            Denial::CredentialsRejected => HttpResponse::new(UNAUTHORIZED, "Unauthorized"),
            Denial::DomainNotAllowed => HttpResponse::new(
                FORBIDDEN,
                "Access to this domain is not allowed through the proxy.",
            ),
            Denial::NoDestination { tunnel } => if *tunnel {
                HttpResponse::new(BAD_REQUEST, "CONNECT must be to a socket address")
            } else {
                HttpResponse::without_body(BAD_REQUEST)
            },
        }
    }
}

/// Compares two runs of bytes.
pub fn bytes_equal(left: &[u8], right: &[u8]) -> (same: bool)
    ensures
        same == (left@ == right@),
{
    if left.len() != right.len() {
        return false;
    }
    let mut i: usize = 0;
    while i < left.len()
        invariant
            left@.len() == right@.len(),
            i <= left@.len(),
            forall|k: int| 0 <= k < i ==> left@[k] == right@[k],
        decreases left@.len() - i,
    {
        if left[i] != right[i] {
            return false;
        }
        i += 1;
    }
    assert(left@ =~= right@);
    true
}

/// Looks for `host` among the allowed domains.
pub fn is_allowed(domains: &Vec<String>, host: &str) -> (found: bool)
    ensures
        found == domain_allowed(Seq::new(domains@.len(), |i: int| domains@[i]@), host@),
{
    let ghost list = Seq::new(domains@.len(), |i: int| domains@[i]@);
    let wanted = host.to_owned();
    let mut i: usize = 0;
    while i < domains.len()
        invariant
            i <= domains@.len(),
            wanted@ == host@,
            list == Seq::new(domains@.len(), |i: int| domains@[i]@),
            forall|k: int| 0 <= k < i ==> list[k] != host@,
        decreases domains@.len() - i,
    {
        if domains[i] == wanted {
            assert(list[i as int] == host@);
            return true;
        }
        i += 1;
    }
    false
}

/// Decides whether a request may pass.
///
/// `presented` is the value of the request's `Proxy-Authorization` header,
/// `tunnel` says whether the request asks for a tunnel, and `host` and `port`
/// are what its target names.
pub fn check(
    config: &ProxyConfig,
    presented: Option<&[u8]>,
    tunnel: bool,
    host: Option<&str>,
    port: Option<u16>,
) -> (verdict: Verdict)
    ensures
        verdict == verdict_of(
            config@.proxy_token,
            config@.allowed_domains,
            slice_model(presented),
            tunnel,
            host_model(host),
            port,
        ),
{
    if let Some(required) = &config.proxy_token {
        match presented {
            None => {
                return Verdict::Deny(Denial::CredentialsMissing);
            },
            Some(value) => {
                if !bytes_equal(value, required.as_str().as_bytes()) {
                    return Verdict::Deny(Denial::CredentialsRejected);
                }
            },
        }
    }
    if let Some(domains) = &config.allowed_domains {
        if let Some(h) = host {
            if !is_allowed(domains, h) {
                return Verdict::Deny(Denial::DomainNotAllowed);
            }
        }
    }
    if host.is_none() || (tunnel && port.is_none()) {
        return Verdict::Deny(Denial::NoDestination { tunnel });
    }
    Verdict::Allow
}

/// The bytes of a header value that may be absent.
pub open spec fn slice_model(bytes: Option<&[u8]>) -> Option<Seq<u8>> {
    match bytes {
        Some(b) => Some(b@),
        None => None,
    }
}

/// Where a credential is required, a request that presents none is answered
/// `407` with `Proxy-Authenticate: Basic realm="proxy"`, whatever else it
/// holds.
pub proof fn missing_credential_is_challenged(
    required: Seq<char>,
    allowed: Option<Seq<Seq<char>>>,
    tunnel: bool,
    host: Option<Seq<char>>,
    port: Option<u16>,
)
    ensures
        verdict_of(Some(required), allowed, None, tunnel, host, port) == Verdict::Deny(
            Denial::CredentialsMissing,
        ),
        denial_response(Denial::CredentialsMissing).status == 407,
        denial_response(Denial::CredentialsMissing).headers == seq![
            ("Proxy-Authenticate"@, "Basic realm=\"proxy\""@),
        ],
{
    assert(denial_response(Denial::CredentialsMissing).headers =~= seq![
        ("Proxy-Authenticate"@, "Basic realm=\"proxy\""@),
    ]);
}

/// Where a credential is required, a request that presents another value is
/// answered `401`, whatever else it holds.
pub proof fn wrong_credential_is_refused(
    required: Seq<char>,
    presented: Seq<u8>,
    allowed: Option<Seq<Seq<char>>>,
    tunnel: bool,
    host: Option<Seq<char>>,
    port: Option<u16>,
)
    requires
        presented != encode_utf8(required),
    ensures
        verdict_of(Some(required), allowed, Some(presented), tunnel, host, port) == Verdict::Deny(
            Denial::CredentialsRejected,
        ),
        denial_status(Denial::CredentialsRejected) == 401,
{
}

/// A request that presents the required credential is judged as if none
/// were required: it goes on to the checks of its destination.
pub proof fn right_credential_proceeds(
    required: Seq<char>,
    allowed: Option<Seq<Seq<char>>>,
    tunnel: bool,
    host: Option<Seq<char>>,
    port: Option<u16>,
)
    ensures
        verdict_of(Some(required), allowed, Some(encode_utf8(required)), tunnel, host, port)
            == verdict_of(None, allowed, None, tunnel, host, port),
{
}

/// Where the destinations are restricted, a request that has passed the
/// credential check is answered `403` exactly when it names a host that is
/// not on the list; a host on the list is never refused for its domain.
pub proof fn allowlist_decides_by_membership(
    allowed: Seq<Seq<char>>,
    tunnel: bool,
    host: Seq<char>,
    port: Option<u16>,
)
    ensures
        !allowed.contains(host) ==> verdict_of(None, Some(allowed), None, tunnel, Some(host), port)
            == Verdict::Deny(Denial::DomainNotAllowed),
        allowed.contains(host) ==> verdict_of(None, Some(allowed), None, tunnel, Some(host), port)
            == verdict_of(None, None, None, tunnel, Some(host), port),
        denial_status(Denial::DomainNotAllowed) == 403,
{
}

/// With no credential required and no list of domains, a request is let
/// through exactly when it names a destination: a host, and for a tunnel a
/// port too. One that names none is answered `400`.
pub proof fn unrestricted_access_asks_only_for_a_destination(
    presented: Option<Seq<u8>>,
    tunnel: bool,
    host: Option<Seq<char>>,
    port: Option<u16>,
)
    ensures
        verdict_of(None, None, presented, tunnel, host, port) == if resolved(tunnel, host, port)
            is Some {
            Verdict::Allow
        } else {
            Verdict::Deny(Denial::NoDestination { tunnel })
        },
        denial_status(Denial::NoDestination { tunnel }) == 400,
        denial_response(Denial::NoDestination { tunnel }).status == 400,
        denial_response(Denial::NoDestination { tunnel: false }) == bare(400, Seq::empty()),
{
}

} // verus!
