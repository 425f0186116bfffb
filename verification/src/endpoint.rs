//! Resolution of the backend endpoint from environment values, and the texts
//! derived from it: the backend URL, the tray page URL, and the cooperative
//! shutdown request.

use vstd::prelude::*;
use vstd::string::*;
use crate::strutil::{dec_digits, push_decimal};

verus! {

/// The loopback address the UI talks to by default.
pub open spec fn default_host() -> Seq<char> {
    "127.0.0.1"@
}

/// The all-interfaces address, which is never used as a client-side target.
pub open spec fn all_interfaces() -> Seq<char> {
    "0.0.0.0"@
}

/// The port the backend listens on when the environment names none.
pub const DEFAULT_PORT: u16 = 8000;

/// Whether `c` is an ASCII decimal digit.
pub open spec fn is_digit(c: char) -> bool {
    '0' <= c && c <= '9'
}

/// The numeric value of a digit character.
pub open spec fn digit_val(c: char) -> int {
    c as int - '0' as int
}

/// Whether every character of `s` is a decimal digit.
pub open spec fn all_digits(s: Seq<char>) -> bool {
    forall|i: int| 0 <= i < s.len() ==> is_digit(s[i])
}

/// The value of a digit string read in base ten.
pub open spec fn digits_val(s: Seq<char>) -> int
    decreases s.len(),
{
    if s.len() == 0 {
        0
    } else {
        digits_val(s.drop_last()) * 10 + digit_val(s.last())
    }
}

/// What `str::parse::<u16>` accepts: an optional `+` sign followed by at
/// least one digit, with a value that fits in sixteen bits.
pub open spec fn parse_u16(s: Seq<char>) -> Option<u16> {
    let body = if s.len() > 0 && s.first() == '+' {
        s.drop_first()
    } else {
        s
    };
    if body.len() == 0 || !all_digits(body) {
        None
    } else if digits_val(body) > 65535 {
        None
    } else {
        Some(digits_val(body) as u16)
    }
}

proof fn lemma_digits_val_step(s: Seq<char>, j: int)
    requires
        0 <= j < s.len(),
    ensures
        digits_val(s.take(j + 1)) == digits_val(s.take(j)) * 10 + digit_val(s[j]),
{
    assert(s.take(j + 1).drop_last() =~= s.take(j));
    assert(s.take(j + 1).last() == s[j]);
}

proof fn lemma_digits_val_grows(s: Seq<char>, j: int)
    requires
        all_digits(s),
        0 <= j <= s.len(),
    ensures
        digits_val(s.take(j)) >= 0,
        digits_val(s) >= digits_val(s.take(j)),
    decreases s.len() - j,
{
    if j == s.len() {
        assert(s.take(j) =~= s);
        lemma_digits_val_nonneg(s);
    } else {
        lemma_digits_val_step(s, j);
        lemma_digits_val_nonneg(s.take(j));
        lemma_digits_val_grows(s, j + 1);
    }
}

proof fn lemma_digits_val_nonneg(s: Seq<char>)
    requires
        all_digits(s),
    ensures
        digits_val(s) >= 0,
    decreases s.len(),
{
    if s.len() > 0 {
        assert(all_digits(s.drop_last())) by {
            assert(forall|i: int|
                0 <= i < s.len() - 1 ==> s.drop_last()[i] == s[i]);
        }
        lemma_digits_val_nonneg(s.drop_last());
    }
}

fn digit_of(c: char) -> (r: Option<u16>)
    ensures
        r is Some <==> is_digit(c),
        r is Some ==> r->0 == digit_val(c) && r->0 < 10,
{
    if '0' <= c && c <= '9' {
        Some(((c as u32) - ('0' as u32)) as u16)
    } else {
        None
    }
}

/// Reads `s` as `str::parse::<u16>` would: an optional `+` sign, then
/// decimal digits, rejected when empty, malformed, or too large.
pub fn parse_port(s: &str) -> (r: Option<u16>)
    ensures
        r == parse_u16(s@),
{
    let n = s.unicode_len();
    let start: usize = if n > 0 && s.get_char(0) == '+' {
        1
    } else {
        0
    };
    let ghost body = if s@.len() > 0 && s@.first() == '+' {
        s@.drop_first()
    } else {
        s@
    };
    proof {
        assert(body =~= s@.skip(start as int));
    }
    if n == start {
        return None;
    }
    let mut acc: u32 = 0;
    let mut i: usize = start;
    while i < n
        invariant
            n == s@.len(),
            start <= i <= n,
            body == (if s@.len() > 0 && s@.first() == '+' {
                s@.drop_first()
            } else {
                s@
            }),
            body == s@.skip(start as int),
            body.len() == n - start,
            forall|k: int| 0 <= k < i - start ==> is_digit(body[k]),
            acc == digits_val(body.take(i - start)),
            acc <= 65535,
        decreases n - i,
    {
        let c = s.get_char(i);
        proof {
            assert(body[i - start] == s@[i as int]);
        }
        match digit_of(c) {
            None => {
                proof {
                    assert(!is_digit(body[i - start]));
                    assert(!all_digits(body));
                }
                return None;
            },
            Some(d) => {
                proof {
                    lemma_digits_val_step(body, i - start);
                }
                let next: u32 = acc * 10 + d as u32;
                if next > 65535 {
                    proof {
                        if all_digits(body) {
                            lemma_digits_val_grows(body, i - start + 1);
                            assert(digits_val(body) >= digits_val(body.take(i - start + 1)));
                        }
                    }
                    return None;
                }
                acc = next;
            },
        }
        i = i + 1;
    }
    proof {
        assert(body.take(n - start) =~= body);
    }
    Some(acc as u16)
}

/// The backend endpoint as the shell uses it: the host the backend binds,
/// the host the UI connects to, and the port.
pub struct EndpointConfig {
    /// The host handed to the backend when it is spawned.
    pub bind_host: String,
    /// The host the UI probes and navigates to; never the all-interfaces
    /// address.
    pub ui_host: String,
    /// The TCP port of the backend.
    pub port: u16,
}

/// How an [`EndpointConfig`] follows from the two environment values: an
/// unset host defaults to loopback, an unparsable or unset port defaults to
/// [`DEFAULT_PORT`], and an all-interfaces host is rewritten to loopback for
/// the client side.
pub open spec fn endpoint_resolved(
    host_env: Option<String>,
    port_env: Option<String>,
    c: EndpointConfig,
) -> bool {
    &&& c.bind_host@ == match host_env {
        Some(h) => h@,
        None => default_host(),
    }
    &&& c.port == match port_env {
        Some(p) => match parse_u16(p@) {
            Some(v) => v,
            None => DEFAULT_PORT,
        },
        None => DEFAULT_PORT,
    }
    &&& c.ui_host@ == if c.bind_host@ == all_interfaces() {
        default_host()
    } else {
        c.bind_host@
    }
}

/// Computes the endpoint from the host and port environment values, applying
/// the defaulting and loopback-rewrite rules.
pub fn backend_host_port(host_env: Option<String>, port_env: Option<String>) -> (c: EndpointConfig)
    ensures
        endpoint_resolved(host_env, port_env, c),
{
    let bind_host = match &host_env {
        Some(h) => h.clone(),
        None => String::from_str("127.0.0.1"),
    };
    let port: u16 = match &port_env {
        Some(p) => match parse_port(p.as_str()) {
            Some(v) => v,
            None => DEFAULT_PORT,
        },
        None => DEFAULT_PORT,
    };
    let all_if = String::from_str("0.0.0.0");
    let ui_host = if bind_host == all_if {
        String::from_str("127.0.0.1")
    } else {
        bind_host.clone()
    };
    EndpointConfig { bind_host, ui_host, port }
}

/// The UI never connects to the all-interfaces address: a resolved endpoint's
/// client-side host is always something else, loopback in the rewritten case.
pub proof fn lemma_loopback_rewrite(
    host_env: Option<String>,
    port_env: Option<String>,
    c: EndpointConfig,
)
    requires
        endpoint_resolved(host_env, port_env, c),
    ensures
        c.ui_host@ != all_interfaces(),
{
    reveal_strlit("127.0.0.1");
    reveal_strlit("0.0.0.0");
    assert(default_host().len() == 9);
    assert(all_interfaces().len() == 7);
}

/// The backend URL the main window is redirected to once the backend is
/// reachable.
pub open spec fn backend_url_text(host: Seq<char>, port: u16) -> Seq<char> {
    "http://"@ + host + ":"@ + dec_digits(port as nat)
}

/// Renders `http://{host}:{port}`.
pub fn backend_url(host: &str, port: u16) -> (r: String)
    ensures
        r@ == backend_url_text(host@, port),
{
    let mut s = String::from_str("http://");
    s.append(host);
    s.append(":");
    push_decimal(&mut s, port as u64);
    proof {
        assert(s@ =~= backend_url_text(host@, port));
    }
    s
}

/// The URL of the tray popup page served by the backend.
pub open spec fn tray_page_url_text(host: Seq<char>, port: u16) -> Seq<char> {
    backend_url_text(host, port) + "/tray.html"@
}

/// Renders `http://{host}:{port}/tray.html`.
pub fn tray_page_url(host: &str, port: u16) -> (r: String)
    ensures
        r@ == tray_page_url_text(host@, port),
{
    let mut s = backend_url(host, port);
    s.append("/tray.html");
    s
}

/// The cooperative shutdown request: an HTTP-shaped `POST /api/app/exit`
/// with an empty body and `Connection: close`, written once to the backend's
/// TCP port; no response is expected.
pub open spec fn exit_request_text(host: Seq<char>, port: u16) -> Seq<char> {
    "POST /api/app/exit HTTP/1.1\r\nHost: "@ + host + ":"@ + dec_digits(port as nat)
        + "\r\nContent-Length: 0\r\nConnection: close\r\n\r\n"@
}

/// Renders the cooperative shutdown request for the endpoint.
pub fn exit_request(host: &str, port: u16) -> (r: String)
    ensures
        r@ == exit_request_text(host@, port),
{
    let mut s = String::from_str("POST /api/app/exit HTTP/1.1\r\nHost: ");
    s.append(host);
    s.append(":");
    push_decimal(&mut s, port as u64);
    s.append("\r\nContent-Length: 0\r\nConnection: close\r\n\r\n");
    proof {
        assert(s@ =~= exit_request_text(host@, port));
    }
    s
}

} // verus!
