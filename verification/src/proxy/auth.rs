//! The username and password presented to the SOCKS5 gateway.

use vstd::prelude::*;

verus! {

/// A username and password for the gateway's username/password
/// subnegotiation. Set once at start and only read afterwards.
#[derive(Debug, Eq, PartialEq, Hash)]
pub struct Auth {
    pub username: String,
    pub password: String,
}

impl Auth {
    pub fn new(username: String, password: String) -> (auth: Self)
        ensures
            auth.username == username,
            auth.password == password,
    {
        Self { username, password }
    }
}

impl View for Auth {
    type V = (Seq<char>, Seq<char>);

    /// The username and the password as sequences of characters.
    open spec fn view(&self) -> (Seq<char>, Seq<char>) {
        (self.username@, self.password@)
    }
}

/// The username and password of a credential that may be absent.
pub open spec fn credential_model(credential: Option<Auth>) -> Option<(Seq<char>, Seq<char>)> {
    match credential {
        Some(auth) => Some(auth@),
        None => None,
    }
}

impl Clone for Auth {
    fn clone(&self) -> (copy: Self)
        ensures
            copy == *self,
    {
        Auth { username: self.username.clone(), password: self.password.clone() }
    }
}

} // verus!
