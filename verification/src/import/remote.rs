//! The `remote <host> <port>` directive of an OpenVPN configuration.

use vstd::prelude::*;

use crate::error::PulsarError;
use crate::pattern::{captures, compile_pattern, regex_captures, regex_compiles};
use crate::text::{parse_u16, spec_parse_u16, to_string};

verus! {

/// The pattern that finds the first `remote <host> <port>` line: at the start
/// of a line, `remote`, whitespace, the host (non-whitespace), whitespace, and
/// the port (digits).
pub const REMOTE_DIRECTIVE_PATTERN: &'static str = "(?m)^remote\\s+(\\S+)\\s+(\\d+)";

/// The text of capture group `i` in the outcome of a search, if any.
pub open spec fn capture_group(found: Option<Seq<Option<Seq<char>>>>, i: int) -> Option<Seq<char>> {
    match found {
        Some(groups) => if 0 <= i < groups.len() {
            groups[i]
        } else {
            None
        },
        None => None,
    }
}

/// The host a search outcome names, or `default_host`.
pub open spec fn spec_remote_host(found: Option<Seq<Option<Seq<char>>>>, default_host: Seq<char>) -> Seq<char> {
    match capture_group(found, 1) {
        Some(h) => h,
        None => default_host,
    }
}

/// The port a search outcome names, or `default_port` when it names none or
/// one that is not a valid `u16`.
pub open spec fn spec_remote_port(found: Option<Seq<Option<Seq<char>>>>, default_port: u16) -> u16 {
    match capture_group(found, 2) {
        Some(p) => match spec_parse_u16(p) {
            Some(v) => v,
            None => default_port,
        },
        None => default_port,
    }
}

/// Searches `config` for the first `remote <host> <port>` directive; the
/// outcome holds the text of each capture group (1: host, 2: port).
/// Fails with `PulsarError::Regex` only if the regex crate refuses the
/// pattern.
pub fn find_remote_directive(config: &str) -> (r: Result<Option<Vec<Option<String>>>, PulsarError>)
    ensures
        r is Ok <==> regex_compiles(REMOTE_DIRECTIVE_PATTERN@),
        r matches Ok(found) ==> found.deep_view() == regex_captures(
            REMOTE_DIRECTIVE_PATTERN@,
            config@,
        ),
        r matches Err(e) ==> e is Regex,
{
    match compile_pattern(REMOTE_DIRECTIVE_PATTERN) {
        Ok(c) => Ok(captures(&c, config)),
        Err(e) => Err(PulsarError::Regex(e)),
    }
}

/// The host and port named by the capture groups `found` of a search for the
/// `remote` directive, with `default_host` and `default_port` standing in for
/// what is absent; a port that does not parse as a `u16` also falls back to
/// `default_port`.
pub fn remote_from_captures(
    found: &Option<Vec<Option<String>>>,
    default_host: &str,
    default_port: u16,
) -> (r: (String, u16))
    ensures
        r.0@ == spec_remote_host(found.deep_view(), default_host@),
        r.1 == spec_remote_port(found.deep_view(), default_port),
{
    match found {
        Some(groups) => {
            let host = if groups.len() > 1 {
                match &groups[1] {
                    Some(h) => h.clone(),
                    None => to_string(default_host),
                }
            } else {
                to_string(default_host)
            };
            let port = if groups.len() > 2 {
                match &groups[2] {
                    Some(p) => match parse_u16(p.as_str()) {
                        Some(v) => v,
                        None => default_port,
                    },
                    None => default_port,
                }
            } else {
                default_port
            };
            proof {
                let g = groups.deep_view();
                if groups@.len() > 1 {
                    assert(g[1] == groups@[1].deep_view());
                }
                if groups@.len() > 2 {
                    assert(g[2] == groups@[2].deep_view());
                }
            }
            (host, port)
        },
        None => (to_string(default_host), default_port),
    }
}

} // verus!
