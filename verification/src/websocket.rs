//! The websocket URL that goes with a JSON-RPC URL, through the `url` crate.

use vstd::prelude::*;

verus! {

/// The scheme and explicit port (`None` when absent or the scheme's
/// default) of `text` as `url::Url::parse` reads it; `None` when it refuses
/// `text`.
pub uninterp spec fn url_parts(text: Seq<char>) -> Option<(Seq<char>, Option<u16>)>;

/// The text of the URL `url::Url::parse` reads from `text`, after
/// `set_scheme(scheme)`; `None` when either refuses.
pub uninterp spec fn url_with_scheme(text: Seq<char>, scheme: Seq<char>) -> Option<Seq<char>>;

/// The text of the URL `url::Url::parse` reads from `text`, after
/// `set_scheme(scheme)` and `set_port(Some(port))`; `None` when one of the
/// three refuses.
pub uninterp spec fn url_with_scheme_and_port(text: Seq<char>, scheme: Seq<char>, port: u16) -> Option<Seq<char>>;

/// Parses `text` with `url::Url::parse` and hands back its scheme and port.
///
/// Claims that the result is the one `url_parts` names for `text`.
#[verifier::external_body]
pub(crate) fn parse_url_parts(text: &str) -> (r: Option<(String, Option<u16>)>)
    ensures
        match r {
            None => url_parts(text@) is None,
            Some((scheme, port)) => url_parts(text@) == Some((scheme@, port)),
        },
{
    match url::Url::parse(text) {
        Ok(parsed) => Some((parsed.scheme().to_string(), parsed.port())),
        Err(_) => None,
    }
}

/// Parses `text` with `url::Url::parse`, sets its scheme, and renders it
/// with `to_string`.
///
/// Claims that the result is the one `url_with_scheme` names for these arguments.
#[verifier::external_body]
pub(crate) fn rewrite_scheme(text: &str, scheme: &str) -> (r: Option<String>)
    ensures
        match r {
            None => url_with_scheme(text@, scheme@) is None,
            Some(t) => url_with_scheme(text@, scheme@) == Some(t@),
        },
{
    let mut parsed = url::Url::parse(text).ok()?;
    parsed.set_scheme(scheme).ok()?;
    Some(parsed.to_string())
}

/// Parses `text` with `url::Url::parse`, sets its scheme and its port, and
/// renders it with `to_string`.
///
/// Claims that the result is the one `url_with_scheme_and_port` names for
/// these arguments.
#[verifier::external_body]
pub(crate) fn rewrite_scheme_and_port(text: &str, scheme: &str, port: u16) -> (r: Option<String>)
    ensures
        match r {
            None => url_with_scheme_and_port(text@, scheme@, port) is None,
            Some(t) => url_with_scheme_and_port(text@, scheme@, port) == Some(t@),
        },
{
    let mut parsed = url::Url::parse(text).ok()?;
    parsed.set_scheme(scheme).ok()?;
    parsed.set_port(Some(port)).ok()?;
    Some(parsed.to_string())
}

/// The websocket URL for `text` once its websocket scheme and port are known.
pub open spec fn rewritten(text: Seq<char>, scheme: Seq<char>, port: Option<u16>) -> Option<Seq<char>> {
    match port {
        Some(p) => url_with_scheme_and_port(text, scheme, p),
        None => url_with_scheme(text, scheme),
    }
}

/// Rewrites `text` with the websocket scheme and, when given, port.
pub fn rewrite_url(text: &str, scheme: &str, port: Option<u16>) -> (r: Option<String>)
    ensures
        match r {
            None => rewritten(text@, scheme@, port) is None,
            Some(t) => rewritten(text@, scheme@, port) == Some(t@),
        },
{
    match port {
        Some(p) => rewrite_scheme_and_port(text, scheme, p),
        None => rewrite_scheme(text, scheme),
    }
}

/// `c` with ASCII upper case letters turned to lower case.
pub open spec fn ascii_lower(c: char) -> char {
    if 'A' <= c && c <= 'Z' {
        ((c as int) + 32) as char
    } else {
        c
    }
}

/// The websocket scheme for a URL scheme: `wss` for `https` (in any case), `ws` otherwise.
pub open spec fn websocket_scheme(scheme: Seq<char>) -> Seq<char> {
    if scheme.map_values(|c: char| ascii_lower(c)) == "https"@ {
        "wss"@
    } else {
        "ws"@
    }
}

/// The websocket URL for the JSON-RPC URL `text`: the empty string when
/// `text` is not a URL; otherwise the URL with its scheme replaced by
/// `websocket_scheme` and its explicit port, if any, raised by one. `None`
/// where that cannot be done (the port is 65535, or `url` refuses the new
/// scheme or port).
pub open spec fn websocket_url(text: Seq<char>) -> Option<Seq<char>> {
    match url_parts(text) {
        None => Some(Seq::empty()),
        Some((scheme, port)) => match port {
            Some(p) => if p == 65535 {
                None
            } else {
                url_with_scheme_and_port(text, websocket_scheme(scheme), (p + 1) as u16)
            },
            None => url_with_scheme(text, websocket_scheme(scheme)),
        },
    }
}

fn is_upper_or_lower(c: char, lower: char, upper: char) -> (b: bool)
    requires
        'a' <= lower <= 'z',
        upper as int == lower as int - 32,
    ensures
        b == (ascii_lower(c) == lower),
{
    c == lower || c == upper
}

/// The websocket scheme for the URL scheme `scheme`.
pub fn websocket_scheme_for(scheme: &str) -> (ws: &'static str)
    ensures
        ws@ == websocket_scheme(scheme@),
{
    proof {
        reveal_strlit("https");
    }
    let ghost lowered = scheme@.map_values(|c: char| ascii_lower(c));
    let secure = scheme.unicode_len() == 5 && is_upper_or_lower(scheme.get_char(0), 'h', 'H')
        && is_upper_or_lower(scheme.get_char(1), 't', 'T') && is_upper_or_lower(
        scheme.get_char(2),
        't',
        'T',
    ) && is_upper_or_lower(scheme.get_char(3), 'p', 'P') && is_upper_or_lower(
        scheme.get_char(4),
        's',
        'S',
    );
    proof {
        if secure {
            assert(lowered =~= "https"@);
        } else if lowered == "https"@ {
            assert(lowered.len() == 5);
            assert(lowered[0] == 'h' && lowered[1] == 't' && lowered[2] == 't');
            assert(lowered[3] == 'p' && lowered[4] == 's');
        }
    }
    if secure {
        "wss"
    } else {
        "ws"
    }
}

/// The scheme and port a websocket URL takes, given the scheme and explicit
/// port of a JSON-RPC URL; `None` when the port is 65535 and has no successor.
pub fn websocket_target(scheme: &str, port: Option<u16>) -> (r: Option<(&'static str, Option<u16>)>)
    ensures
        match r {
            None => port == Some(65535u16),
            Some((ws_scheme, ws_port)) => {
                &&& port != Some(65535u16)
                &&& ws_scheme@ == websocket_scheme(scheme@)
                &&& ws_port == match port {
                    Some(p) => Some((p + 1) as u16),
                    None => None,
                }
            },
        },
{
    let ws_scheme = websocket_scheme_for(scheme);
    match port {
        Some(p) => {
            if p == 65535 {
                None
            } else {
                Some((ws_scheme, Some(p + 1)))
            }
        },
        None => Some((ws_scheme, None)),
    }
}

} // verus!
