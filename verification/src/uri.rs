//! Base-URI derivation.
//!
//! The connection's base URI is `scheme://host:port`, where each part comes
//! either from an explicit value, from service-discovery environment values
//! that the caller read, or from a fixed default.  The derivation is pure;
//! the environment itself is read by the caller.

use vstd::prelude::*;

verus! {

/// The decimal digit character for `d`.
pub open spec fn spec_digit(d: nat) -> char {
    if d == 0 {
        '0'
    } else if d == 1 {
        '1'
    } else if d == 2 {
        '2'
    } else if d == 3 {
        '3'
    } else if d == 4 {
        '4'
    } else if d == 5 {
        '5'
    } else if d == 6 {
        '6'
    } else if d == 7 {
        '7'
    } else if d == 8 {
        '8'
    } else {
        '9'
    }
}

/// The decimal representation of `n`, most significant digit first, with no
/// leading zeros (a single `'0'` for zero).
pub open spec fn spec_u32_dec(n: nat) -> Seq<char>
    decreases n,
{
    if n < 10 {
        seq![spec_digit(n)]
    } else {
        spec_u32_dec(n / 10) + seq![spec_digit(n % 10)]
    }
}

/// The one-character string for the decimal digit `d`.
fn digit_str(d: u32) -> (r: &'static str)
    requires
        d < 10,
    ensures
        r@ == seq![spec_digit(d as nat)],
{
    let r: &'static str = if d == 0 {
        "0"
    } else if d == 1 {
        "1"
    } else if d == 2 {
        "2"
    } else if d == 3 {
        "3"
    } else if d == 4 {
        "4"
    } else if d == 5 {
        "5"
    } else if d == 6 {
        "6"
    } else if d == 7 {
        "7"
    } else if d == 8 {
        "8"
    } else {
        "9"
    };
    proof {
        reveal_strlit("0");
        reveal_strlit("1");
        reveal_strlit("2");
        reveal_strlit("3");
        reveal_strlit("4");
        reveal_strlit("5");
        reveal_strlit("6");
        reveal_strlit("7");
        reveal_strlit("8");
        reveal_strlit("9");
        assert(r@ =~= seq![spec_digit(d as nat)]);
    }
    r
}

/// Formats `n` in decimal.
pub fn u32_to_string(n: u32) -> (r: String)
    ensures
        r@ == spec_u32_dec(n as nat),
{
    let mut s = String::new();
    let mut m: u32 = n;
    while m >= 10
        invariant
            spec_u32_dec(n as nat) == spec_u32_dec(m as nat) + s@,
        decreases m,
    {
        let d: u32 = m % 10;
        s = String::from_str(digit_str(d)).concat(s.as_str());
        m = m / 10;
        proof {
            assert(spec_u32_dec(n as nat) =~= spec_u32_dec(m as nat) + s@);
        }
    }
    let r = String::from_str(digit_str(m)).concat(s.as_str());
    proof {
        assert(r@ =~= spec_u32_dec(n as nat));
    }
    r
}

/// The scheme that a discovered port value implies: 443 is https, 80 is
/// plain http, and anything else defaults to https.
pub open spec fn spec_scheme_for_port(p: Seq<char>) -> Seq<char> {
    if p == "443"@ {
        "https"@
    } else if p == "80"@ {
        "http"@
    } else {
        "https"@
    }
}

/// The scheme part of the base URI.
pub open spec fn spec_scheme_part(
    scheme: Option<String>,
    search_uri: bool,
    env_port: Option<String>,
) -> Seq<char> {
    if search_uri {
        match env_port {
            Some(p) => spec_scheme_for_port(p@),
            None => "https"@,
        }
    } else {
        match scheme {
            Some(s) => s@,
            None => "https"@,
        }
    }
}

/// The host part of the base URI.
pub open spec fn spec_host_part(
    host: Option<String>,
    search_uri: bool,
    env_host: Option<String>,
) -> Seq<char> {
    if search_uri && env_host is Some {
        env_host->0@
    } else {
        match host {
            Some(h) => h@,
            None => "localhost"@,
        }
    }
}

/// The port part of the base URI, in decimal.
pub open spec fn spec_port_part(
    port: Option<u32>,
    search_uri: bool,
    env_port: Option<String>,
) -> Seq<char> {
    if search_uri && env_port is Some {
        env_port->0@
    } else {
        match port {
            Some(p) => spec_u32_dec(p as nat),
            None => spec_u32_dec(6443),
        }
    }
}

/// The full base URI, `scheme://host:port`.
pub open spec fn spec_base_uri(
    scheme: Option<String>,
    host: Option<String>,
    port: Option<u32>,
    search_uri: bool,
    env_host: Option<String>,
    env_port: Option<String>,
) -> Seq<char> {
    spec_scheme_part(scheme, search_uri, env_port) + "://"@ + spec_host_part(
        host,
        search_uri,
        env_host,
    ) + ":"@ + spec_port_part(port, search_uri, env_port)
}

/// Composes the base URI from the explicit values, the service-discovery
/// environment values the caller read (consulted only when `search_uri` is
/// set), and the defaults `https`, `localhost` and 6443.
pub fn resolve_base_uri(
    scheme: &Option<String>,
    host: &Option<String>,
    port: &Option<u32>,
    search_uri: bool,
    env_host: &Option<String>,
    env_port: &Option<String>,
) -> (r: String)
    ensures
        r@ == spec_base_uri(*scheme, *host, *port, search_uri, *env_host, *env_port),
{
    let scheme_part: String;
    let host_part: String;
    let port_part: String;
    if search_uri {
        match env_host {
            Some(h) => {
                host_part = h.clone();
            },
            None => {
                host_part = match host {
                    Some(h) => h.clone(),
                    None => String::from_str("localhost"),
                };
            },
        }
        match env_port {
            Some(p) => {
                port_part = p.clone();
                scheme_part = scheme_for_port(p);
            },
            None => {
                scheme_part = String::from_str("https");
                port_part = match port {
                    Some(p) => u32_to_string(*p),
                    None => u32_to_string(6443),
                };
            },
        }
    } else {
        scheme_part = match scheme {
            Some(s) => s.clone(),
            None => String::from_str("https"),
        };
        host_part = match host {
            Some(h) => h.clone(),
            None => String::from_str("localhost"),
        };
        port_part = match port {
            Some(p) => u32_to_string(*p),
            None => u32_to_string(6443),
        };
    }
    scheme_part.concat("://").concat(host_part.as_str()).concat(":").concat(port_part.as_str())
}

/// Maps a discovered port value to the scheme it implies.
fn scheme_for_port(p: &String) -> (r: String)
    ensures
        r@ == spec_scheme_for_port(p@),
{
    let https_port = String::from_str("443");
    let http_port = String::from_str("80");
    if *p == https_port {
        String::from_str("https")
    } else if *p == http_port {
        String::from_str("http")
    } else {
        String::from_str("https")
    }
}

} // verus!
