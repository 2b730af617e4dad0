//! The liveness probe, and its forwarding from a second listener.
//!
//! The gateway answers `/_health` on its primary listener. A second listener,
//! on an address of its own, may answer the same path by asking the primary
//! one and passing its answer on.

use vstd::prelude::*;

use crate::error::INTERNAL_SERVER_ERROR;
use crate::status::StatusCode;

verus! {

/// Body of the liveness answer.
pub const HEALTH_BODY: &'static str = "Ok";

/// Host under which a listener on every address is reached from this machine.
pub const LOOPBACK: &'static str = "127.0.0.1";

/// The liveness answer: 200 with a fixed body. It takes nothing, so it cannot
/// depend on whether the upstream platform is reachable.
pub fn health() -> (answer: (StatusCode, &'static str))
    ensures
        answer.0@ == 200,
        answer.1@ == HEALTH_BODY@,
{
    (StatusCode::ok(), HEALTH_BODY)
}

/// An IP address, held as its bits.
#[derive(Clone, Copy, Debug, PartialEq, Eq, Structural)]
pub enum IpAddress {
    V4(u32),
    V6(u128),
}

impl IpAddress {
    /// Whether this is the address that stands for every address of the
    /// machine: `0.0.0.0`, or `::`.
    pub open spec fn unspecified(self) -> bool {
        match self {
            IpAddress::V4(bits) => bits == 0,
            IpAddress::V6(bits) => bits == 0,
        }
    }

    /// Whether this is the address that stands for every address of the
    /// machine.
    pub fn is_unspecified(&self) -> (unspecified: bool)
        ensures
            unspecified == self.unspecified(),
    {
        match self {
            IpAddress::V4(bits) => *bits == 0,
            IpAddress::V6(bits) => *bits == 0,
        }
    }
}

/// An address that a listener is bound to.
#[derive(Clone, Copy, Debug, PartialEq, Eq, Structural)]
pub struct ListenAddress {
    pub ip: IpAddress,
    pub port: u16,
}

/// The address of the second listener: the health address and port where
/// both are given and differ from the primary listener's, else none.
pub open spec fn health_listener_for(
    primary: ListenAddress,
    health_ip: Option<IpAddress>,
    health_port: Option<u16>,
) -> Option<ListenAddress> {
    match (health_ip, health_port) {
        (Some(ip), Some(port)) => if (ListenAddress { ip, port }) != primary {
            Some(ListenAddress { ip, port })
        } else {
            None
        },
        _ => None,
    }
}

/// Decides whether a second listener answers the liveness probe, and where.
pub fn health_listener(
    primary: ListenAddress,
    health_ip: Option<IpAddress>,
    health_port: Option<u16>,
) -> (listener: Option<ListenAddress>)
    ensures
        listener == health_listener_for(primary, health_ip, health_port),
{
    match health_ip {
        Some(ip) => match health_port {
            Some(port) => {
                let address = ListenAddress { ip, port };
                if address != primary {
                    Some(address)
                } else {
                    None
                }
            },
            None => None,
        },
        None => None,
    }
}

/// The host under which the second listener reaches the primary one, whose
/// address is `primary` and is written `primary_text`: the loopback address
/// where the primary listens on every address, else its own.
pub fn forward_host(primary: IpAddress, primary_text: String) -> (host: String)
    ensures
        host@ == if primary.unspecified() {
            LOOPBACK@
        } else {
            primary_text@
        },
{
    if primary.is_unspecified() {
        LOOPBACK.to_string()
    } else {
        primary_text
    }
}

/// The decimal digit `d`.
pub open spec fn digit_char(d: int) -> char {
    if d == 0 {
        '0'
    } else if d == 1 {
        '1'
    } else if d == 2 {
        '2'
    } else if d == 3 {
        '3'
    } else if d == 4 {
        '4'
    } else if d == 5 {
        '5'
    } else if d == 6 {
        '6'
    } else if d == 7 {
        '7'
    } else if d == 8 {
        '8'
    } else {
        '9'
    }
}

/// The number `n` in decimal digits, without leading zeros.
pub open spec fn decimal_text(n: nat) -> Seq<char>
    decreases n,
{
    if n < 10 {
        seq![digit_char(n as int)]
    } else {
        decimal_text(n / 10).push(digit_char((n % 10) as int))
    }
}

fn digit_text(d: u16) -> (text: &'static str)
    requires
        d < 10,
    ensures
        text@ == seq![digit_char(d as int)],
{
    let text = if d == 0 {
        "0"
    } else if d == 1 {
        "1"
    } else if d == 2 {
        "2"
    } else if d == 3 {
        "3"
    } else if d == 4 {
        "4"
    } else if d == 5 {
        "5"
    } else if d == 6 {
        "6"
    } else if d == 7 {
        "7"
    } else if d == 8 {
        "8"
    } else {
        "9"
    };
    proof {
        reveal_strlit("0");
        reveal_strlit("1");
        reveal_strlit("2");
        reveal_strlit("3");
        reveal_strlit("4");
        reveal_strlit("5");
        reveal_strlit("6");
        reveal_strlit("7");
        reveal_strlit("8");
        reveal_strlit("9");
        assert(text@ =~= seq![digit_char(d as int)]);
    }
    text
}

fn decimal(n: u16) -> (text: String)
    ensures
        text@ == decimal_text(n as nat),
    decreases n,
{
    if n < 10 {
        digit_text(n).to_string()
    } else {
        let mut text = decimal(n / 10);
        text.append(digit_text(n % 10));
        assert(text@ =~= decimal_text(n as nat));
        text
    }
}

/// The URL of the primary listener's liveness probe.
pub open spec fn health_url_for(host: Seq<char>, port: u16) -> Seq<char> {
    "http://"@ + host + ":"@ + decimal_text(port as nat) + "/_health"@
}

/// The URL under which the second listener asks the primary one, which is
/// reached at `host` and `port`.
pub fn health_url(host: &str, port: u16) -> (url: String)
    ensures
        url@ == health_url_for(host@, port),
{
    let mut url = "http://".to_string();
    url.append(host);
    url.append(":");
    let digits = decimal(port);
    url.append(digits.as_str());
    url.append("/_health");
    url
}

/// How asking the primary listener ended.
#[derive(Debug)]
pub enum ForwardOutcome {
    /// It answered with `status`, and its body was read.
    Answered { status: StatusCode, body: String },
    /// It answered, but its body could not be read.
    BodyUnreadable,
    /// It could not be asked. `reported` is the status that came with the
    /// failure, if one did.
    Failed { reported: Option<StatusCode> },
}

/// What the second listener answers after `outcome`, as status and body.
pub open spec fn forwarded(outcome: ForwardOutcome) -> (int, Seq<char>) {
    match outcome {
        ForwardOutcome::Answered { status, body } => (status@, body@),
        ForwardOutcome::BodyUnreadable => (500, INTERNAL_SERVER_ERROR@),
        ForwardOutcome::Failed { reported: Some(status) } => (status@, INTERNAL_SERVER_ERROR@),
        ForwardOutcome::Failed { reported: None } => (500, INTERNAL_SERVER_ERROR@),
    }
}

/// The answer of the second listener: that of the primary one where it gave
/// one in full; else a fixed message, with the status of the failure where it
/// has one and 500 where it has none.
pub fn health_fw(outcome: ForwardOutcome) -> (answer: (StatusCode, String))
    ensures
        (answer.0@, answer.1@) == forwarded(outcome),
{
    match outcome {
        ForwardOutcome::Answered { status, body } => (status, body),
        ForwardOutcome::BodyUnreadable => (
            StatusCode::internal_server_error(),
            INTERNAL_SERVER_ERROR.to_string(),
        ),
        ForwardOutcome::Failed { reported } => {
            let status = match reported {
                Some(status) => status,
                None => StatusCode::internal_server_error(),
            };
            (status, INTERNAL_SERVER_ERROR.to_string())
        },
    }
}

} // verus!
