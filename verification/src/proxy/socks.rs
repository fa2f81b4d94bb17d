//! How an attempt to reach a destination through the SOCKS5 gateway can
//! fail, and what the client is told when it does.

use vstd::prelude::*;
use crate::proxy::response::{bare, HttpResponse, ResponseModel, BAD_GATEWAY, INTERNAL_SERVER_ERROR};

verus! {

/// What the SOCKS5 client reports when a connection attempt fails, one
/// variant for each failure the `tokio-socks` crate tells apart. The program
/// that makes the attempt names the failure it got; what is made of it is
/// decided here.
#[derive(Debug, Clone, Copy, PartialEq, Eq, Structural)]
pub enum UpstreamFault {
    Io,
    ParseError,
    InvalidTargetAddress,
    ProxyServerUnreachable,
    InvalidResponseVersion,
    NoAcceptableAuthMethods,
    UnknownAuthMethod,
    GeneralSocksServerFailure,
    ConnectionNotAllowedByRuleset,
    NetworkUnreachable,
    HostUnreachable,
    ConnectionRefused,
    TtlExpired,
    CommandNotSupported,
    AddressTypeNotSupported,
    UnknownError,
    InvalidReservedByte,
    UnknownAddressType,
    InvalidAuthValues,
    /// The gateway refused the username and password, with its status byte.
    PasswordAuthFailure(u8),
    AuthorizationRequired,
    IdentdAuthFailure,
    InvalidUserIdAuthFailure,
}

/// Why no stream to the destination was obtained.
#[derive(Debug, Clone, Copy, PartialEq, Eq, Structural)]
pub enum SocksError {
    /// The gateway could not be reached, or the connection to it broke.
    UpstreamUnreachable,
    /// The gateway refused the username and password.
    AuthRejected,
    /// The gateway chose no authentication method the proxy can perform.
    NoAcceptableMethod,
    /// The gateway answered the connect request with this reply code.
    ConnectFailed(u8),
    /// The gateway's answer was malformed, or the request could not be put
    /// to it at all.
    Protocol,
}

pub const REPLY_GENERAL_FAILURE: u8 = 1;

pub const REPLY_NOT_ALLOWED: u8 = 2;

pub const REPLY_NETWORK_UNREACHABLE: u8 = 3;

pub const REPLY_HOST_UNREACHABLE: u8 = 4;

pub const REPLY_CONNECTION_REFUSED: u8 = 5;

pub const REPLY_TTL_EXPIRED: u8 = 6;

pub const REPLY_COMMAND_NOT_SUPPORTED: u8 = 7;

pub const REPLY_ADDRESS_TYPE_NOT_SUPPORTED: u8 = 8;

/// The error a reported fault stands for.
pub open spec fn classified(fault: UpstreamFault) -> SocksError {
    match fault {
        UpstreamFault::Io => SocksError::UpstreamUnreachable,
        UpstreamFault::ProxyServerUnreachable => SocksError::UpstreamUnreachable,
        UpstreamFault::PasswordAuthFailure(_) => SocksError::AuthRejected,
        UpstreamFault::NoAcceptableAuthMethods => SocksError::NoAcceptableMethod,
        UpstreamFault::UnknownAuthMethod => SocksError::NoAcceptableMethod,
        UpstreamFault::AuthorizationRequired => SocksError::NoAcceptableMethod,
        UpstreamFault::GeneralSocksServerFailure => SocksError::ConnectFailed(
            REPLY_GENERAL_FAILURE,
        ),
        UpstreamFault::ConnectionNotAllowedByRuleset => SocksError::ConnectFailed(
            REPLY_NOT_ALLOWED,
        ),
        UpstreamFault::NetworkUnreachable => SocksError::ConnectFailed(REPLY_NETWORK_UNREACHABLE),
        UpstreamFault::HostUnreachable => SocksError::ConnectFailed(REPLY_HOST_UNREACHABLE),
        UpstreamFault::ConnectionRefused => SocksError::ConnectFailed(REPLY_CONNECTION_REFUSED),
        UpstreamFault::TtlExpired => SocksError::ConnectFailed(REPLY_TTL_EXPIRED),
        UpstreamFault::CommandNotSupported => SocksError::ConnectFailed(
            REPLY_COMMAND_NOT_SUPPORTED,
        ),
        UpstreamFault::AddressTypeNotSupported => SocksError::ConnectFailed(
            REPLY_ADDRESS_TYPE_NOT_SUPPORTED,
        ),
        UpstreamFault::ParseError => SocksError::Protocol,
        UpstreamFault::InvalidTargetAddress => SocksError::Protocol,
        UpstreamFault::InvalidResponseVersion => SocksError::Protocol,
        UpstreamFault::UnknownError => SocksError::Protocol,
        UpstreamFault::InvalidReservedByte => SocksError::Protocol,
        UpstreamFault::UnknownAddressType => SocksError::Protocol,
        UpstreamFault::InvalidAuthValues => SocksError::Protocol,
        UpstreamFault::IdentdAuthFailure => SocksError::Protocol,
        UpstreamFault::InvalidUserIdAuthFailure => SocksError::Protocol,
    }
}

/// The error that stands for an attempt to connect that did not end in
/// time: the gateway counts as unreachable.
pub open spec fn timeout_error() -> SocksError {
    SocksError::UpstreamUnreachable
}

/// What a reply code of the gateway means, in words.
pub open spec fn reply_reason(code: u8) -> Seq<char> {
    if code == REPLY_GENERAL_FAILURE {
        "general failure"@
    } else if code == REPLY_NOT_ALLOWED {
        "connection not allowed by ruleset"@
    } else if code == REPLY_NETWORK_UNREACHABLE {
        "network unreachable"@
    } else if code == REPLY_HOST_UNREACHABLE {
        "host unreachable"@
    } else if code == REPLY_CONNECTION_REFUSED {
        "connection refused"@
    } else if code == REPLY_TTL_EXPIRED {
        "TTL expired"@
    } else if code == REPLY_COMMAND_NOT_SUPPORTED {
        "command not supported"@
    } else if code == REPLY_ADDRESS_TYPE_NOT_SUPPORTED {
        "address type not supported"@
    } else {
        "unknown failure"@
    }
}

/// What an error means, in words.
pub open spec fn error_reason(error: SocksError) -> Seq<char> {
    match error {
        SocksError::UpstreamUnreachable => "upstream unreachable"@,
        SocksError::AuthRejected => "authentication rejected"@,
        SocksError::NoAcceptableMethod => "no acceptable authentication method"@,
        SocksError::ConnectFailed(code) => reply_reason(code),
        SocksError::Protocol => "malformed exchange with upstream"@,
    }
}

/// The status a client is answered with when the gateway fails: `500` for a
/// malformed exchange, `502` for every other failure.
pub open spec fn failure_status(error: SocksError) -> u16 {
    match error {
        SocksError::Protocol => INTERNAL_SERVER_ERROR,
        _ => BAD_GATEWAY,
    }
}

/// The response a client is answered with when the gateway fails.
pub open spec fn failure_response(error: SocksError) -> ResponseModel {
    bare(failure_status(error), error_reason(error))
}

/// The words for a reply code of the gateway.
pub fn reply_text(code: u8) -> (text: &'static str)
    ensures
        text@ == reply_reason(code),
{
    if code == REPLY_GENERAL_FAILURE {
        "general failure"
    } else if code == REPLY_NOT_ALLOWED {
        "connection not allowed by ruleset"
    } else if code == REPLY_NETWORK_UNREACHABLE {
        "network unreachable"
    } else if code == REPLY_HOST_UNREACHABLE {
        "host unreachable"
    } else if code == REPLY_CONNECTION_REFUSED {
        "connection refused"
    } else if code == REPLY_TTL_EXPIRED {
        "TTL expired"
    } else if code == REPLY_COMMAND_NOT_SUPPORTED {
        "command not supported"
    } else if code == REPLY_ADDRESS_TYPE_NOT_SUPPORTED {
        "address type not supported"
    } else {
        "unknown failure"
    }
}

impl SocksError {
    /// Sorts a fault reported by the SOCKS5 client into the error it stands
    /// for. A failed connect request keeps the gateway's reply code.
    pub fn from_fault(fault: UpstreamFault) -> (error: Self)
        ensures
            error == classified(fault),
            error matches SocksError::ConnectFailed(code) ==> 1 <= code <= 8,
    {
        match fault {
            UpstreamFault::Io | UpstreamFault::ProxyServerUnreachable => {
                SocksError::UpstreamUnreachable
            },
            UpstreamFault::PasswordAuthFailure(_) => SocksError::AuthRejected,
            UpstreamFault::NoAcceptableAuthMethods
            | UpstreamFault::UnknownAuthMethod
            | UpstreamFault::AuthorizationRequired => SocksError::NoAcceptableMethod,
            UpstreamFault::GeneralSocksServerFailure => SocksError::ConnectFailed(
                REPLY_GENERAL_FAILURE,
            ),
            UpstreamFault::ConnectionNotAllowedByRuleset => SocksError::ConnectFailed(
                REPLY_NOT_ALLOWED,
            ),
            UpstreamFault::NetworkUnreachable => SocksError::ConnectFailed(
                REPLY_NETWORK_UNREACHABLE,
            ),
            UpstreamFault::HostUnreachable => SocksError::ConnectFailed(REPLY_HOST_UNREACHABLE),
            UpstreamFault::ConnectionRefused => SocksError::ConnectFailed(
                REPLY_CONNECTION_REFUSED,
            ),
            UpstreamFault::TtlExpired => SocksError::ConnectFailed(REPLY_TTL_EXPIRED),
            UpstreamFault::CommandNotSupported => SocksError::ConnectFailed(
                REPLY_COMMAND_NOT_SUPPORTED,
            ),
            UpstreamFault::AddressTypeNotSupported => SocksError::ConnectFailed(
                REPLY_ADDRESS_TYPE_NOT_SUPPORTED,
            ),
            UpstreamFault::ParseError
            | UpstreamFault::InvalidTargetAddress
            | UpstreamFault::InvalidResponseVersion
            | UpstreamFault::UnknownError
            | UpstreamFault::InvalidReservedByte
            | UpstreamFault::UnknownAddressType
            | UpstreamFault::InvalidAuthValues
            | UpstreamFault::IdentdAuthFailure
            | UpstreamFault::InvalidUserIdAuthFailure => SocksError::Protocol,
        }
    }

    /// The error for an attempt to connect that was given up because it did
    /// not end in time.
    pub fn timed_out() -> (error: Self)
        ensures
            error == timeout_error(),
    {
        SocksError::UpstreamUnreachable
    }

    /// The status to answer the client with.
    pub fn status(&self) -> (status: u16)
        ensures
            status == failure_status(*self),
            status == INTERNAL_SERVER_ERROR || status == BAD_GATEWAY,
    {
        match self {
            SocksError::Protocol => INTERNAL_SERVER_ERROR,
            _ => BAD_GATEWAY,
        }
    }

    /// The error in words, for the response body and the log.
    pub fn reason(&self) -> (text: &'static str)
        ensures
            text@ == error_reason(*self),
    {
        match self {
            SocksError::UpstreamUnreachable => "upstream unreachable",
            SocksError::AuthRejected => "authentication rejected",
            SocksError::NoAcceptableMethod => "no acceptable authentication method",
            SocksError::ConnectFailed(code) => reply_text(*code),
            SocksError::Protocol => "malformed exchange with upstream",
        }
    }

    /// The response to answer the client with.
    pub fn response(&self) -> (response: HttpResponse)
        ensures
            response@ == failure_response(*self),
            500 <= response@.status < 600,
    {
        HttpResponse::new(self.status(), self.reason())
    }
}

/// An attempt to connect that did not end in time is answered `502`.
pub proof fn timeout_is_a_bad_gateway()
    ensures
        failure_status(timeout_error()) == BAD_GATEWAY,
        failure_response(timeout_error()).status == 502,
{
}

/// Whatever the SOCKS5 client reports, the client of the proxy is answered
/// with a `5xx` status: `500` or `502`.
pub proof fn every_fault_is_a_server_error(fault: UpstreamFault)
    ensures
        failure_status(classified(fault)) == INTERNAL_SERVER_ERROR || failure_status(
            classified(fault),
        ) == BAD_GATEWAY,
        500 <= failure_response(classified(fault)).status < 600,
{
}

} // verus!
