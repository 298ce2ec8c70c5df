//! The profile data model and its validation rules.

use vstd::prelude::*;

use crate::error::PulsarError;
use crate::text::{
    alphanumeric, char_is_alphanumeric, concat, is_white_space, push_str, to_string, trim,
    trim_str, unicode_alphanumeric,
};

verus! {

/// The kind of connection a profile describes.
#[derive(Debug, Clone, Copy, PartialEq, Eq, Structural)]
pub enum ProtocolType {
    OpenvpnCloak,
}

impl ProtocolType {
    /// The name of the protocol as shown to users and stored on disk.
    pub fn as_str(&self) -> (s: &'static str)
        ensures
            s@ == "openvpn-cloak"@,
    {
        match self {
            ProtocolType::OpenvpnCloak => "openvpn-cloak",
        }
    }
}

/// The Cloak client configuration (`ck-client -c`).
#[derive(Debug, Clone)]
pub struct CloakConfig {
    pub browser_sig: String,
    pub encryption_method: String,
    pub num_conn: u32,
    pub proxy_method: String,
    pub public_key: String,
    pub remote_host: String,
    pub remote_port: String,
    pub server_name: String,
    pub stream_timeout: u32,
    pub transport: String,
    pub uid: String,
}

/// `seq![name]` when the field value `v` is empty, else nothing.
pub open spec fn name_if_empty(v: Seq<char>, name: Seq<char>) -> Seq<Seq<char>> {
    if v.len() == 0 {
        seq![name]
    } else {
        Seq::empty()
    }
}

/// The names of the required Cloak fields that are empty in `c`, in the
/// order `PublicKey`, `UID`, `RemoteHost`, `RemotePort`, `ProxyMethod`.
pub open spec fn missing_required_fields(c: CloakConfig) -> Seq<Seq<char>> {
    name_if_empty(c.public_key@, "PublicKey"@) + name_if_empty(c.uid@, "UID"@) + name_if_empty(
        c.remote_host@,
        "RemoteHost"@,
    ) + name_if_empty(c.remote_port@, "RemotePort"@) + name_if_empty(
        c.proxy_method@,
        "ProxyMethod"@,
    )
}

/// The parts joined with `sep` between consecutive parts.
pub open spec fn join(parts: Seq<Seq<char>>, sep: Seq<char>) -> Seq<char>
    decreases parts.len(),
{
    if parts.len() == 0 {
        Seq::empty()
    } else if parts.len() == 1 {
        parts[0]
    } else {
        join(parts.drop_last(), sep) + sep + parts.last()
    }
}

/// Records `name` as missing when `value` is empty: `missing` and its
/// `", "`-joined rendering `joined` both grow by `name`.
fn note_if_empty(
    value: &String,
    name: &str,
    joined: &mut String,
    count: &mut usize,
    Ghost(missing): Ghost<Seq<Seq<char>>>,
) -> (added: Ghost<Seq<Seq<char>>>)
    requires
        old(joined)@ == join(missing, ", "@),
        *old(count) == missing.len(),
        missing.len() < 5,
    ensures
        added@ == missing + name_if_empty(value@, name@),
        final(joined)@ == join(added@, ", "@),
        *final(count) == added@.len(),
{
    if value.as_str().is_empty() {
        let ghost next = missing.push(name@);
        assert(next.drop_last() =~= missing);
        if *count > 0 {
            push_str(joined, ", ");
        }
        push_str(joined, name);
        assert(missing + name_if_empty(value@, name@) =~= next);
        proof {
            if missing.len() == 0 {
                assert(old(joined)@ =~= Seq::<char>::empty());
                assert(joined@ =~= name@);
            }
        }
        *count = *count + 1;
        Ghost(next)
    } else {
        assert(missing + name_if_empty(value@, name@) =~= missing);
        Ghost(missing)
    }
}

impl CloakConfig {
    /// Checks that `PublicKey`, `UID`, `RemoteHost`, `RemotePort` and
    /// `ProxyMethod` are all non-empty; otherwise reports which are missing.
    pub fn validate(&self) -> (r: Result<(), PulsarError>)
        ensures
            r is Ok <==> missing_required_fields(*self).len() == 0,
            r is Err ==> (r matches Err(PulsarError::InvalidCloakConfig(m)) && m@
                == "Missing required fields: "@ + join(missing_required_fields(*self), ", "@)),
    {
        let mut joined = String::new();
        let mut count: usize = 0;
        assert(joined@ =~= join(Seq::empty(), ", "@));
        let ghost m0: Seq<Seq<char>> = Seq::empty();
        let Ghost(m1) = note_if_empty(&self.public_key, "PublicKey", &mut joined, &mut count, Ghost(m0));
        let Ghost(m2) = note_if_empty(&self.uid, "UID", &mut joined, &mut count, Ghost(m1));
        let Ghost(m3) = note_if_empty(&self.remote_host, "RemoteHost", &mut joined, &mut count, Ghost(m2));
        let Ghost(m4) = note_if_empty(&self.remote_port, "RemotePort", &mut joined, &mut count, Ghost(m3));
        let Ghost(m5) = note_if_empty(&self.proxy_method, "ProxyMethod", &mut joined, &mut count, Ghost(m4));
        assert(m5 =~= missing_required_fields(*self));
        if count > 0 {
            let msg = concat("Missing required fields: ", joined.as_str());
            return Err(PulsarError::InvalidCloakConfig(msg));
        }
        Ok(())
    }
}

/// A stored connection profile.
#[derive(Debug, Clone)]
pub struct Profile {
    pub name: String,
    pub protocol_type: ProtocolType,
    pub created_at: String,
    pub remote_host: String,
    pub remote_port: u16,
    pub local_cloak_port: u16,
}

/// A character a profile name may hold: alphanumeric, `-` or `_`.
pub open spec fn allowed_name_char(c: char) -> bool {
    alphanumeric(c) || c == '-' || c == '_'
}

/// A character that can stand in a profile directory's name without
/// splitting or escaping it: no white space, no path separator, no dot, no
/// drive colon and no NUL.
pub open spec fn plain_name_char(c: char) -> bool {
    &&& !is_white_space(c)
    &&& c != '/'
    &&& c != '\\'
    &&& c != '.'
    &&& c != ':'
    &&& c != '\0'
}

/// Every ASCII letter of either case, every ASCII digit, `-` and `_` may
/// stand in a profile name, and no other ASCII character may; beyond ASCII,
/// exactly the characters that `char::is_alphanumeric` accepts may.
pub proof fn lemma_allowed_name_chars(c: char)
    ensures
        'a' <= c <= 'z' || 'A' <= c <= 'Z' || '0' <= c <= '9' || c == '-' || c == '_'
            ==> allowed_name_char(c),
        (c as u32) < 128 && allowed_name_char(c) ==> ('a' <= c <= 'z' || 'A' <= c <= 'Z' || '0'
            <= c <= '9' || c == '-' || c == '_'),
        (c as u32) >= 128 ==> (allowed_name_char(c) <==> unicode_alphanumeric(c)),
{
}

/// Every character of `s` is allowed in a profile name.
pub open spec fn all_allowed_name_chars(s: Seq<char>) -> bool {
    forall|i: int| 0 <= i < s.len() ==> allowed_name_char(#[trigger] s[i])
}

/// The profile name that `name` stands for: `name` trimmed, provided that is
/// non-empty and made of allowed characters only.
pub open spec fn sanitized_name(name: Seq<char>) -> Option<Seq<char>> {
    let t = trim(name);
    if t.len() > 0 && all_allowed_name_chars(t) {
        Some(t)
    } else {
        None
    }
}

impl Profile {
    /// Trims `name` and checks that it is a valid profile name.
    pub fn sanitize_name(name: &str) -> (r: Result<String, PulsarError>)
        ensures
            r matches Ok(s) ==> sanitized_name(name@) == Some(s@),
            r is Ok <==> trim(name@).len() > 0 && forall|i: int|
                0 <= i < trim(name@).len() ==> unicode_alphanumeric(#[trigger] trim(name@)[i])
                    || trim(name@)[i] == '-' || trim(name@)[i] == '_',
            r matches Ok(s) ==> forall|i: int|
                0 <= i < s@.len() ==> plain_name_char(#[trigger] s@[i]),
            r is Ok <==> sanitized_name(name@) is Some,
            trim(name@).len() == 0 ==> (r matches Err(PulsarError::InvalidProfileName(m)) && m@
                == "Profile name cannot be empty"@),
            trim(name@).len() > 0 && !all_allowed_name_chars(trim(name@)) ==> (r matches Err(
                PulsarError::InvalidProfileName(m),
            ) && m@
                == "Profile name can only contain alphanumeric characters, hyphens, and underscores"@),
    {
        let trimmed = trim_str(name);
        let chars = crate::text::chars_of(trimmed.as_str());
        if chars.len() == 0 {
            return Err(PulsarError::InvalidProfileName(to_string("Profile name cannot be empty")));
        }
        let mut i: usize = 0;
        while i < chars.len()
            invariant
                chars@ == trim(name@),
                i <= chars@.len(),
                forall|k: int| 0 <= k < i ==> allowed_name_char(#[trigger] chars@[k]),
                forall|k: int| 0 <= k < i ==> plain_name_char(#[trigger] chars@[k]),
                forall|k: int|
                    0 <= k < i ==> unicode_alphanumeric(#[trigger] chars@[k]) || chars@[k] == '-'
                        || chars@[k] == '_',
            decreases chars@.len() - i,
        {
            let c = chars[i];
            let a = char_is_alphanumeric(c);
            if !(a || c == '-' || c == '_') {
                assert(!allowed_name_char(chars@[i as int]));
                return Err(
                    PulsarError::InvalidProfileName(
                        to_string(
                            "Profile name can only contain alphanumeric characters, hyphens, and underscores",
                        ),
                    ),
                );
            }
            i = i + 1;
        }
        Ok(trimmed)
    }
}

/// A profile together with the two configuration files it comes with.
#[derive(Debug, Clone)]
pub struct ProfileData {
    pub profile: Profile,
    pub openvpn_config: String,
    pub cloak_config: CloakConfig,
}

/// A valid profile name is already in its sanitized form: sanitizing it
/// again accepts it unchanged.
pub proof fn lemma_sanitize_idempotent(name: Seq<char>)
    requires
        sanitized_name(name) is Some,
    ensures
        sanitized_name(sanitized_name(name).unwrap()) == sanitized_name(name),
{
    crate::text::lemma_trim_idempotent(name);
}

} // verus!
