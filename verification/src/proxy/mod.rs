//! The per-request pipeline: access control, destination, and the two kinds
//! of session that carry a request through the gateway.

pub mod access;
pub mod auth;
pub mod config;
pub mod dispatch;
pub mod encoding;
pub mod forward;
pub mod request;
pub mod response;
pub mod socks;
pub mod target;
pub mod tunnel;
