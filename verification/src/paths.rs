//! File-system paths, kept as UTF-8 strings with the Unix separator `/`
//! (the platforms Pulsar supports are macOS and Linux).

use vstd::prelude::*;

use crate::text::{push_char, push_str, to_string};

verus! {

/// `base` extended by `part` as `PathBuf::push` does on Unix: an absolute
/// `part` replaces `base`; otherwise a `/` is inserted unless `base` is empty
/// or already ends with one.
pub open spec fn path_join(base: Seq<char>, part: Seq<char>) -> Seq<char> {
    if part.len() > 0 && part[0] == '/' {
        part
    } else if base.len() > 0 && base.last() != '/' {
        base + seq!['/'] + part
    } else {
        base + part
    }
}

/// `base` extended by `part` (`Path::join` on Unix).
pub fn join_path(base: &str, part: &str) -> (r: String)
    ensures
        r@ == path_join(base@, part@),
{
    let b = crate::text::chars_of(base);
    let p = crate::text::chars_of(part);
    if p.len() > 0 && p[0] == '/' {
        return to_string(part);
    }
    let mut r = to_string(base);
    if b.len() > 0 && b[b.len() - 1] != '/' {
        push_char(&mut r, '/');
    }
    push_str(&mut r, part);
    r
}

/// The directory under the user's configuration directory `config_dir` that
/// holds everything Pulsar stores: `<config_dir>/pulsar`.
pub fn pulsar_dir(config_dir: &str) -> (r: String)
    ensures
        r@ == path_join(config_dir@, "pulsar"@),
{
    join_path(config_dir, "pulsar")
}

/// Where profiles are stored: `<config_dir>/pulsar/profiles`.
pub fn profiles_dir(config_dir: &str) -> (r: String)
    ensures
        r@ == path_join(path_join(config_dir@, "pulsar"@), "profiles"@),
{
    let p = pulsar_dir(config_dir);
    join_path(p.as_str(), "profiles")
}

} // verus!
