//! A verified core for an HTTP proxy that reaches its destinations through a
//! SOCKS5 gateway.
//!
//! The crate holds the decisions of such a proxy and none of its sockets:
//! who may pass, where a request goes, what to answer when the gateway
//! fails, and how a tunnel or a forwarded exchange moves from one step to
//! the next. A program around it owns the listener and the streams, performs
//! each action the sessions ask for, and hands back what happened.

pub mod proxy;
