//! What to do with each decrypted request: open a tunnel for `CONNECT`,
//! refuse a `CONNECT` whose target is no `host:port`, forward the rest.

use vstd::prelude::*;

verus! {

/// Port of the backend when a forwarded request names none.
pub const DEFAULT_BACKEND_PORT: u16 = 8080;

/// Status of the reply that opens a tunnel.
pub const STATUS_OK: u16 = 200;

/// Status of the reply to a `CONNECT` whose target is no `host:port`.
pub const STATUS_BAD_REQUEST: u16 = 400;

/// Body of the reply to a `CONNECT` whose target is no `host:port`.
pub const BAD_TARGET_BODY: &'static str = "CONNECT must be to a socket address";

/// The request method, as far as routing tells methods apart.
#[derive(Clone, Copy, Debug, PartialEq, Eq, Structural)]
pub enum Method {
    Connect,
    Other,
}

/// The parts of a request target that routing reads.
pub struct RequestTarget {
    pub host: Option<String>,
    pub port: Option<u16>,
}

impl View for RequestTarget {
    type V = (Option<Seq<char>>, Option<u16>);

    open spec fn view(&self) -> Self::V {
        (
            match self.host {
                Some(h) => Some(h@),
                None => None,
            },
            self.port,
        )
    }
}

/// The decimal digit `d`.
pub open spec fn digit_char(d: nat) -> char {
    seq!['0', '1', '2', '3', '4', '5', '6', '7', '8', '9'][d as int]
}

/// `n` written in decimal, without leading zeros.
pub open spec fn decimal(n: nat) -> Seq<char>
    decreases n,
{
    if n < 10 {
        seq![digit_char(n)]
    } else {
        decimal(n / 10).push(digit_char(n % 10))
    }
}

/// `host:port`.
pub open spec fn host_port(host: Seq<char>, port: u16) -> Seq<char> {
    host.push(':') + decimal(port as nat)
}

/// The address that a target names, where it names a non-empty host and a
/// port.
pub open spec fn target_addr(t: (Option<Seq<char>>, Option<u16>)) -> Option<Seq<char>> {
    match t {
        (Some(h), Some(p)) => if h.len() > 0 {
            Some(host_port(h, p))
        } else {
            None
        },
        _ => None,
    }
}

/// The backend address that a forwarded request goes to.
pub open spec fn backend_addr(backend_host: Seq<char>, t: (Option<Seq<char>>, Option<u16>)) -> Seq<
    char,
> {
    host_port(
        backend_host,
        match t.1 {
            Some(p) => p,
            None => DEFAULT_BACKEND_PORT,
        },
    )
}

/// What a route is, as a value.
pub ghost enum RouteView {
    Tunnel(Seq<char>),
    BadTarget,
    Forward(Seq<char>),
}

/// What is done with one request.
pub enum Route {
    /// Reply with success and an empty body; once that reply is sent, relay
    /// raw bytes between the client and this address.
    Tunnel(String),
    /// Reply with a client error; dial nothing.
    BadTarget,
    /// Send the request on to the backend at this address and relay its
    /// response.
    Forward(String),
}

impl View for Route {
    type V = RouteView;

    open spec fn view(&self) -> RouteView {
        match self {
            Route::Tunnel(a) => RouteView::Tunnel(a@),
            Route::BadTarget => RouteView::BadTarget,
            Route::Forward(a) => RouteView::Forward(a@),
        }
    }
}

/// The route of a request with method `m` and target `t`, where forwarded
/// requests go to `backend_host`.
pub open spec fn route_of(
    m: Method,
    t: (Option<Seq<char>>, Option<u16>),
    backend_host: Seq<char>,
) -> RouteView {
    match m {
        Method::Connect => match target_addr(t) {
            Some(a) => RouteView::Tunnel(a),
            None => RouteView::BadTarget,
        },
        Method::Other => RouteView::Forward(backend_addr(backend_host, t)),
    }
}

/// The reply that the proxy itself gives on a route, status and body; none
/// where the backend's response is relayed instead.
pub open spec fn reply_of(r: RouteView) -> Option<(u16, Seq<char>)> {
    match r {
        RouteView::Tunnel(_) => Some((STATUS_OK, Seq::empty())),
        RouteView::BadTarget => Some((STATUS_BAD_REQUEST, BAD_TARGET_BODY@)),
        RouteView::Forward(_) => None,
    }
}

/// The address that is dialed on a route, if any.
pub open spec fn dial_of(r: RouteView) -> Option<Seq<char>> {
    match r {
        RouteView::Tunnel(a) => Some(a),
        RouteView::BadTarget => None,
        RouteView::Forward(a) => Some(a),
    }
}

/// A `CONNECT` whose target names a non-empty host and a port is answered
/// by the proxy with success and an empty body, and its tunnel dials exactly
/// that `host:port`.
pub proof fn lemma_connect_opens_tunnel(h: Seq<char>, p: u16, backend_host: Seq<char>)
    requires
        h.len() > 0,
    ensures
        route_of(Method::Connect, (Some(h), Some(p)), backend_host) == RouteView::Tunnel(
            host_port(h, p),
        ),
        reply_of(route_of(Method::Connect, (Some(h), Some(p)), backend_host)) == Some(
            (STATUS_OK, Seq::<char>::empty()),
        ),
        dial_of(route_of(Method::Connect, (Some(h), Some(p)), backend_host)) == Some(
            host_port(h, p),
        ),
{
}

/// A `CONNECT` whose target names no host, an empty one, or no port is
/// answered with a client error, and nothing is dialed.
pub proof fn lemma_bad_connect_dials_nothing(
    t: (Option<Seq<char>>, Option<u16>),
    backend_host: Seq<char>,
)
    requires
        t.0 is None || t.1 is None || t.0 == Some(Seq::<char>::empty()),
    ensures
        route_of(Method::Connect, t, backend_host) == RouteView::BadTarget,
        reply_of(route_of(Method::Connect, t, backend_host)) == Some(
            (STATUS_BAD_REQUEST, BAD_TARGET_BODY@),
        ),
        dial_of(route_of(Method::Connect, t, backend_host)) is None,
{
}

/// A request of any other method gets no reply from the proxy itself: it
/// goes to the backend, whose response is relayed.
pub proof fn lemma_other_forwarded(t: (Option<Seq<char>>, Option<u16>), backend_host: Seq<char>)
    ensures
        route_of(Method::Other, t, backend_host) == RouteView::Forward(
            backend_addr(backend_host, t),
        ),
        reply_of(route_of(Method::Other, t, backend_host)) is None,
{
}

/// The text of the decimal digit `d`.
fn digit_str(d: u16) -> (r: &'static str)
    requires
        d < 10,
    ensures
        r@ == seq![digit_char(d as nat)],
{
    proof {
        reveal_strlit("0");
        reveal_strlit("1");
        reveal_strlit("2");
        reveal_strlit("3");
        reveal_strlit("4");
        reveal_strlit("5");
        reveal_strlit("6");
        reveal_strlit("7");
        reveal_strlit("8");
        reveal_strlit("9");
    }
    let r = if d == 0 {
        "0"
    } else if d == 1 {
        "1"
    } else if d == 2 {
        "2"
    } else if d == 3 {
        "3"
    } else if d == 4 {
        "4"
    } else if d == 5 {
        "5"
    } else if d == 6 {
        "6"
    } else if d == 7 {
        "7"
    } else if d == 8 {
        "8"
    } else {
        "9"
    };
    assert(r@ =~= seq![digit_char(d as nat)]);
    r
}

/// Appends `n` in decimal to `s`.
fn push_decimal(s: &mut String, n: u16)
    ensures
        final(s)@ == old(s)@ + decimal(n as nat),
    decreases n,
{
    if n >= 10 {
        push_decimal(s, n / 10);
    }
    s.append(digit_str(n % 10));
    assert(final(s)@ =~= old(s)@ + decimal(n as nat));
}

/// `host:port` as text.
fn join_host_port(host: &str, port: u16) -> (r: String)
    ensures
        r@ == host_port(host@, port),
{
    let mut s = host.to_string();
    proof {
        reveal_strlit(":");
    }
    s.append(":");
    push_decimal(&mut s, port);
    assert(s@ =~= host_port(host@, port));
    s
}

/// The `host:port` address that a `CONNECT` target names, or `None` where
/// it names no host or no port.
pub fn host_addr(target: &RequestTarget) -> (r: Option<String>)
    ensures
        match r {
            Some(a) => target_addr(target@) == Some(a@),
            None => target_addr(target@) is None,
        },
{
    match (&target.host, target.port) {
        (Some(h), Some(p)) => {
            if !h.as_str().is_empty() {
                Some(join_host_port(h.as_str(), p))
            } else {
                None
            }
        },
        _ => None,
    }
}

/// The backend address for a forwarded request: `backend_host` at the
/// target's port, or at the default port where the target names none.
pub fn forward_addr(backend_host: &str, target: &RequestTarget) -> (r: String)
    ensures
        r@ == backend_addr(backend_host@, target@),
{
    let port = match target.port {
        Some(p) => p,
        None => DEFAULT_BACKEND_PORT,
    };
    join_host_port(backend_host, port)
}

/// Decides what is done with a request.
pub fn route(method: Method, target: &RequestTarget, backend_host: &str) -> (r: Route)
    ensures
        r@ == route_of(method, target@, backend_host@),
{
    match method {
        Method::Connect => match host_addr(target) {
            Some(a) => Route::Tunnel(a),
            None => Route::BadTarget,
        },
        Method::Other => Route::Forward(forward_addr(backend_host, target)),
    }
}

impl Route {
    /// The reply that the proxy itself gives on this route, status and body;
    /// `None` where the backend's response is relayed instead.
    pub fn reply(&self) -> (r: Option<(u16, &'static str)>)
        ensures
            match r {
                Some((status, body)) => reply_of(self@) == Some((status, body@)),
                None => reply_of(self@) is None,
            },
    {
        match self {
            Route::Tunnel(_) => {
                proof {
                    reveal_strlit("");
                }
                Some((STATUS_OK, ""))
            },
            Route::BadTarget => Some((STATUS_BAD_REQUEST, BAD_TARGET_BODY)),
            Route::Forward(_) => None,
        }
    }
}

} // verus!
