//! Where a request is headed: a host and a port.

use vstd::prelude::*;

verus! {

/// The port of a plain HTTP request that names none.
pub const DEFAULT_HTTP_PORT: u16 = 80;

/// The destination of one request.
#[derive(Debug, PartialEq, Eq)]
pub struct TargetAddress {
    pub host: String,
    pub port: u16,
}

/// A destination with its host as a sequence of characters.
pub struct TargetModel {
    pub host: Seq<char>,
    pub port: u16,
}

impl View for TargetAddress {
    type V = TargetModel;

    open spec fn view(&self) -> TargetModel {
        TargetModel { host: self.host@, port: self.port }
    }
}

/// The destination a request resolves to, if any. A tunnel needs a host and
/// a port; any other request needs a host, and goes to port 80 when it names
/// no port.
pub open spec fn resolved(tunnel: bool, host: Option<Seq<char>>, port: Option<u16>) -> Option<
    TargetModel,
> {
    match (host, port) {
        (Some(h), Some(p)) => Some(TargetModel { host: h, port: p }),
        (Some(h), None) => if tunnel {
            None
        } else {
            Some(TargetModel { host: h, port: DEFAULT_HTTP_PORT })
        },
        (None, _) => None,
    }
}

/// The character of a decimal digit.
pub open spec fn digit(d: nat) -> char {
    if d == 0 {
        '0'
    } else if d == 1 {
        '1'
    } else if d == 2 {
        '2'
    } else if d == 3 {
        '3'
    } else if d == 4 {
        '4'
    } else if d == 5 {
        '5'
    } else if d == 6 {
        '6'
    } else if d == 7 {
        '7'
    } else if d == 8 {
        '8'
    } else {
        '9'
    }
}

/// A number in decimal, without sign or leading zeros.
pub open spec fn decimal(n: nat) -> Seq<char>
    decreases n,
{
    if n < 10 {
        seq![digit(n)]
    } else {
        decimal(n / 10).push(digit(n % 10))
    }
}

/// A destination as `host:port`, the form a SOCKS5 client takes.
pub open spec fn socket_address_of(target: TargetModel) -> Seq<char> {
    target.host + seq![':'] + decimal(target.port as nat)
}

fn digit_text(d: u16) -> (text: &'static str)
    requires
        d < 10,
    ensures
        text@ == seq![digit(d as nat)],
{
    proof {
        reveal_strlit("0");
        reveal_strlit("1");
        reveal_strlit("2");
        reveal_strlit("3");
        reveal_strlit("4");
        reveal_strlit("5");
        reveal_strlit("6");
        reveal_strlit("7");
        reveal_strlit("8");
        reveal_strlit("9");
    }
    let text = if d == 0 {
        "0"
    } else if d == 1 {
        "1"
    } else if d == 2 {
        "2"
    } else if d == 3 {
        "3"
    } else if d == 4 {
        "4"
    } else if d == 5 {
        "5"
    } else if d == 6 {
        "6"
    } else if d == 7 {
        "7"
    } else if d == 8 {
        "8"
    } else {
        "9"
    };
    assert(text@ =~= seq![digit(d as nat)]);
    text
}

/// Writes a port number in decimal.
pub fn port_text(port: u16) -> (text: String)
    ensures
        text@ == decimal(port as nat),
    decreases port,
{
    if port < 10 {
        digit_text(port).to_owned()
    } else {
        let mut text = port_text(port / 10);
        text.append(digit_text(port % 10));
        assert(text@ =~= decimal(port as nat));
        text
    }
}

impl TargetAddress {
    pub fn new(host: String, port: u16) -> (target: Self)
        ensures
            target.host == host,
            target.port == port,
    {
        TargetAddress { host, port }
    }

    /// Resolves the destination from the host and port a request target
    /// holds. `tunnel` says whether the request asks for a tunnel.
    pub fn resolve(tunnel: bool, host: Option<&str>, port: Option<u16>) -> (target: Option<Self>)
        ensures
            match target {
                Some(t) => resolved(tunnel, host_model(host), port) == Some(t@),
                None => resolved(tunnel, host_model(host), port) is None,
            },
    {
        match host {
            None => None,
            Some(h) => match port {
                Some(p) => Some(TargetAddress { host: h.to_owned(), port: p }),
                None => if tunnel {
                    None
                } else {
                    Some(TargetAddress { host: h.to_owned(), port: DEFAULT_HTTP_PORT })
                },
            },
        }
    }

    /// The destination as `host:port`.
    pub fn socket_address(&self) -> (text: String)
        ensures
            text@ == socket_address_of(self@),
    {
        let mut text = self.host.clone();
        proof {
            reveal_strlit(":");
        }
        text.append(":");
        let port = port_text(self.port);
        text.append(port.as_str());
        assert(text@ =~= socket_address_of(self@));
        text
    }

}

impl Clone for TargetAddress {
    fn clone(&self) -> (copy: Self)
        ensures
            copy == *self,
    {
        TargetAddress { host: self.host.clone(), port: self.port }
    }
}

/// The characters of a host that may be absent.
pub open spec fn host_model(host: Option<&str>) -> Option<Seq<char>> {
    match host {
        Some(h) => Some(h@),
        None => None,
    }
}

} // verus!
