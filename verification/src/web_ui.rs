//! The monitor-arrangement web page: request routing.
use vstd::prelude::*;
use vstd::string::*;
use crate::protocol::DisplayInfo;

verus! {

/// Which answer the embedded web server gives to a request.
#[derive(Debug, Clone, Copy, PartialEq, Eq)]
pub enum UiRoute {
    /// The displays of this machine, as JSON
    Displays,
    /// The daemon status, as JSON
    Status,
    /// The arrangement page itself
    Page,
}

/// ASCII bytes of `GET /api/displays`.
pub open spec fn displays_request_prefix() -> Seq<u8> {
    seq![71u8, 69, 84, 32, 47, 97, 112, 105, 47, 100, 105, 115, 112, 108, 97, 121, 115]
}

/// ASCII bytes of `GET /api/status`.
pub open spec fn status_request_prefix() -> Seq<u8> {
    seq![71u8, 69, 84, 32, 47, 97, 112, 105, 47, 115, 116, 97, 116, 117, 115]
}

/// `s` begins with `prefix`.
pub open spec fn starts_with(s: Seq<u8>, prefix: Seq<u8>) -> bool {
    prefix.len() <= s.len() && s.subrange(0, prefix.len() as int) == prefix
}

/// The route for the bytes of a request; `None` for an empty read (the client
/// closed the connection). A request's first line begins with an ASCII prefix
/// exactly when its bytes do, since the prefixes hold no line break.
pub open spec fn route_of(request: Seq<u8>) -> Option<UiRoute> {
    if request.len() == 0 {
        None
    } else if starts_with(request, displays_request_prefix()) {
        Some(UiRoute::Displays)
    } else if starts_with(request, status_request_prefix()) {
        Some(UiRoute::Status)
    } else {
        Some(UiRoute::Page)
    }
}

fn has_prefix(s: &[u8], prefix: &[u8]) -> (r: bool)
    ensures
        r == starts_with(s@, prefix@),
{
    if prefix.len() > s.len() {
        return false;
    }
    let mut i: usize = 0;
    while i < prefix.len()
        invariant
            i <= prefix@.len() <= s@.len(),
            forall|k: int| 0 <= k < i ==> s@[k] == prefix@[k],
        decreases prefix@.len() - i,
    {
        if s[i] != prefix[i] {
            assert(s@.subrange(0, prefix@.len() as int)[i as int] != prefix@[i as int]);
            return false;
        }
        i = i + 1;
    }
    assert(s@.subrange(0, prefix@.len() as int) =~= prefix@);
    true
}

/// Route a request by its first bytes.
pub fn route_request(request: &[u8]) -> (r: Option<UiRoute>)
    ensures
        r == route_of(request@),
{
    if request.len() == 0 {
        return None;
    }
    let displays: [u8; 17] = [71u8, 69, 84, 32, 47, 97, 112, 105, 47, 100, 105, 115, 112, 108, 97, 121, 115];
    let status: [u8; 15] = [71u8, 69, 84, 32, 47, 97, 112, 105, 47, 115, 116, 97, 116, 117, 115];
    assert(displays@ == displays_request_prefix());
    assert(status@ == status_request_prefix());
    if has_prefix(request, &displays) {
        Some(UiRoute::Displays)
    } else if has_prefix(request, &status) {
        Some(UiRoute::Status)
    } else {
        Some(UiRoute::Page)
    }
}

pub struct EmbeddedWebServer {
    port: u16,
    displays: Vec<DisplayInfo>,
}

impl EmbeddedWebServer {
    pub closed spec fn spec_port(&self) -> u16 {
        self.port
    }

    pub closed spec fn spec_displays(&self) -> Seq<DisplayInfo> {
        self.displays@
    }

    pub fn new(port: u16, displays: Vec<DisplayInfo>) -> (r: Self)
        ensures
            r.spec_port() == port,
            r.spec_displays() == displays@,
    {
        EmbeddedWebServer { port, displays }
    }

    /// The local port the page is served on.
    pub fn port(&self) -> (r: u16)
        ensures
            r == self.spec_port(),
    {
        self.port
    }

    /// The displays the page shows.
    pub fn displays(&self) -> (r: &Vec<DisplayInfo>)
        ensures
            r@ == self.spec_displays(),
    {
        &self.displays
    }
}

/// The decimal digit `d` (below ten) as a character.
pub open spec fn digit_char(d: nat) -> char {
    if d == 0 { '0' } else if d == 1 { '1' } else if d == 2 { '2' } else if d == 3 { '3' }
    else if d == 4 { '4' } else if d == 5 { '5' } else if d == 6 { '6' } else if d == 7 { '7' }
    else if d == 8 { '8' } else { '9' }
}

/// `n` written in decimal, without leading zeros.
pub open spec fn decimal(n: nat) -> Seq<char>
    decreases n,
{
    if n < 10 {
        seq![digit_char(n)]
    } else {
        decimal(n / 10).push(digit_char(n % 10))
    }
}

fn digit_str(d: usize) -> (r: &'static str)
    requires
        d < 10,
    ensures
        r@ == seq![digit_char(d as nat)],
{
    proof {
        reveal_strlit("0");
        reveal_strlit("1");
        reveal_strlit("2");
        reveal_strlit("3");
        reveal_strlit("4");
        reveal_strlit("5");
        reveal_strlit("6");
        reveal_strlit("7");
        reveal_strlit("8");
        reveal_strlit("9");
    }
    if d == 0 { "0" } else if d == 1 { "1" } else if d == 2 { "2" } else if d == 3 { "3" }
    else if d == 4 { "4" } else if d == 5 { "5" } else if d == 6 { "6" } else if d == 7 { "7" }
    else if d == 8 { "8" } else { "9" }
}

/// `n` written in decimal.
fn decimal_string(n: usize) -> (r: String)
    ensures
        r@ == decimal(n as nat),
    decreases n,
{
    if n < 10 {
        String::from_str(digit_str(n))
    } else {
        let mut s = decimal_string(n / 10);
        s.append(digit_str(n % 10));
        s
    }
}

/// The content type of each answer.
pub open spec fn content_type_of(route: UiRoute) -> Seq<char> {
    match route {
        UiRoute::Page => "text/html; charset=utf-8"@,
        _ => "application/json"@,
    }
}

/// The head of the answer to `route` with a body of `len` bytes: a 200 status, the
/// content type, for the JSON answers a header letting any page read them, the body's
/// length, and the closing of the connection.
pub open spec fn response_head_of(route: UiRoute, len: nat) -> Seq<char> {
    "HTTP/1.1 200 OK\r\nContent-Type: "@ + content_type_of(route)
        + (if route is Page { Seq::empty() } else { "\r\nAccess-Control-Allow-Origin: *"@ })
        + "\r\nContent-Length: "@ + decimal(len) + "\r\nConnection: close\r\n\r\n"@
}

/// The head of the answer to `route` with a body of `body_len` bytes.
pub fn response_head(route: UiRoute, body_len: usize) -> (r: String)
    ensures
        r@ == response_head_of(route, body_len as nat),
{
    let mut head = String::from_str("HTTP/1.1 200 OK\r\nContent-Type: ");
    match route {
        UiRoute::Page => {
            head.append("text/html; charset=utf-8");
        },
        _ => {
            head.append("application/json");
            head.append("\r\nAccess-Control-Allow-Origin: *");
        },
    }
    head.append("\r\nContent-Length: ");
    let len = decimal_string(body_len);
    head.append(len.as_str());
    head.append("\r\nConnection: close\r\n\r\n");
    assert(head@ =~= response_head_of(route, body_len as nat));
    head
}

} // verus!
