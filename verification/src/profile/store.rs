//! Where profiles live on disk, and the rules that govern reading and writing
//! them. Each profile is a directory `<base>/<name>` holding `profile.json`,
//! `openvpn.ovpn` and `cloak.json`.

use vstd::prelude::*;

use crate::error::PulsarError;
use crate::paths::{join_path, path_join};
use crate::profile::model::{sanitized_name, Profile};
use crate::text::{chars_of, to_string};

verus! {

/// One of the three files of a stored profile.
#[derive(Debug, Clone, Copy, PartialEq, Eq, Structural)]
pub enum ProfileFile {
    /// `profile.json`: the profile's metadata.
    Metadata,
    /// `openvpn.ovpn`: the OpenVPN client configuration.
    OpenVpnConfig,
    /// `cloak.json`: the Cloak client configuration.
    CloakConfig,
}

/// The file name of `f` inside a profile directory.
pub open spec fn spec_file_name(f: ProfileFile) -> Seq<char> {
    match f {
        ProfileFile::Metadata => "profile.json"@,
        ProfileFile::OpenVpnConfig => "openvpn.ovpn"@,
        ProfileFile::CloakConfig => "cloak.json"@,
    }
}

impl ProfileFile {
    /// The file's name inside a profile directory.
    pub fn file_name(&self) -> (s: &'static str)
        ensures
            s@ == spec_file_name(*self),
    {
        match self {
            ProfileFile::Metadata => "profile.json",
            ProfileFile::OpenVpnConfig => "openvpn.ovpn",
            ProfileFile::CloakConfig => "cloak.json",
        }
    }
}

/// The profile store rooted at a base directory.
#[derive(Debug)]
pub struct ProfileStore {
    base_dir: String,
}

impl View for ProfileStore {
    type V = Seq<char>;

    /// The base directory.
    closed spec fn view(&self) -> Seq<char> {
        self.base_dir@
    }
}

impl ProfileStore {
    /// The store under the user's configuration directory `config_dir`:
    /// `<config_dir>/pulsar/profiles` (which the caller creates).
    pub fn new(config_dir: &str) -> (s: Self)
        ensures
            s@ == path_join(path_join(config_dir@, "pulsar"@), "profiles"@),
    {
        ProfileStore { base_dir: crate::paths::profiles_dir(config_dir) }
    }

    /// A store rooted at `base_dir` (which the caller has created).
    pub fn with_base_dir(base_dir: String) -> (s: Self)
        ensures
            s@ == base_dir@,
    {
        ProfileStore { base_dir }
    }

    /// The base directory.
    pub fn base_dir(&self) -> (r: &String)
        ensures
            r@ == self@,
    {
        &self.base_dir
    }

    /// The directory of profile `name`: `<base>/<name>`.
    pub fn profile_dir(&self, name: &str) -> (r: String)
        ensures
            r@ == path_join(self@, name@),
    {
        join_path(self.base_dir.as_str(), name)
    }

    /// The path of file `f` of profile `name`: `<base>/<name>/<file>`.
    pub fn file_path(&self, name: &str, f: ProfileFile) -> (r: String)
        ensures
            r@ == path_join(path_join(self@, name@), spec_file_name(f)),
    {
        let dir = self.profile_dir(name);
        join_path(dir.as_str(), f.file_name())
    }

    /// Whether file `f` of profile `name` may be read, given whether it
    /// `exists`: a missing metadata file means the profile does not exist,
    /// a missing configuration file is reported as such.
    pub fn check_readable(name: &str, f: ProfileFile, exists: bool) -> (r: Result<(), PulsarError>)
        ensures
            exists <==> r is Ok,
            !exists && f == ProfileFile::Metadata ==> (r matches Err(PulsarError::ProfileNotFound(n))
                && n@ == name@),
            !exists && f == ProfileFile::OpenVpnConfig ==> r matches Err(
                PulsarError::MissingOpenVpnConfig,
            ),
            !exists && f == ProfileFile::CloakConfig ==> r matches Err(
                PulsarError::MissingCloakConfig,
            ),
    {
        if exists {
            Ok(())
        } else {
            match f {
                ProfileFile::Metadata => Err(PulsarError::ProfileNotFound(to_string(name))),
                ProfileFile::OpenVpnConfig => Err(PulsarError::MissingOpenVpnConfig),
                ProfileFile::CloakConfig => Err(PulsarError::MissingCloakConfig),
            }
        }
    }

    /// Whether profile `name` may be saved, given whether it already `exists`:
    /// a stored profile is never overwritten.
    pub fn check_can_save(name: &str, exists: bool) -> (r: Result<(), PulsarError>)
        ensures
            !exists <==> r is Ok,
            exists ==> (r matches Err(PulsarError::ProfileAlreadyExists(n)) && n@ == name@),
    {
        if exists {
            Err(PulsarError::ProfileAlreadyExists(to_string(name)))
        } else {
            Ok(())
        }
    }

    /// Whether profile `name` may be deleted, given whether its directory
    /// `exists`.
    pub fn check_can_delete(name: &str, exists: bool) -> (r: Result<(), PulsarError>)
        ensures
            exists <==> r is Ok,
            !exists ==> (r matches Err(PulsarError::ProfileNotFound(n)) && n@ == name@),
    {
        if exists {
            Ok(())
        } else {
            Err(PulsarError::ProfileNotFound(to_string(name)))
        }
    }
}

/// A profile name is never empty and never holds `/`, `\`, `.`, `:` or NUL,
/// so it is neither `.` nor `..` nor absolute, and the directory of a valid
/// profile is a single new component directly below the store's base
/// directory.
pub proof fn lemma_valid_name_stays_in_base(base: Seq<char>, name: Seq<char>)
    requires
        sanitized_name(name) is Some,
    ensures
        ({
            let t = sanitized_name(name).unwrap();
            &&& t.len() > 0
            &&& forall|i: int|
                0 <= i < t.len() ==> t[i] != '/' && t[i] != '.' && t[i] != '\\' && t[i] != ':'
                    && t[i] != '\0'
            &&& path_join(base, t) == if base.len() > 0 && base.last() != '/' {
                base + seq!['/'] + t
            } else {
                base + t
            }
        }),
{
    let t = sanitized_name(name).unwrap();
    assert forall|i: int| 0 <= i < t.len() implies t[i] != '/' && t[i] != '.' && t[i] != '\\'
        && t[i] != ':' && t[i] != '\0' by {
        assert(crate::profile::model::allowed_name_char(t[i]));
    }
    assert(t[0] != '/');
}

// ---------------------------------------------------------------------------
// Ordering profiles by name
// ---------------------------------------------------------------------------

/// `a` comes no later than `b` in the lexicographic order of code points
/// (the order of `str`, which compares UTF-8 bytes).
pub open spec fn name_le(a: Seq<char>, b: Seq<char>) -> bool
    decreases a.len(),
{
    if a.len() == 0 {
        true
    } else if b.len() == 0 {
        false
    } else if a[0] != b[0] {
        a[0] < b[0]
    } else {
        name_le(a.drop_first(), b.drop_first())
    }
}

/// Names are ordered by code point, position by position: given that `a`
/// and `b` agree on their first `k` characters, `a` sorts no later than `b`
/// when those are all of `a`; a longer `a` sorts after `b` when they are all
/// of `b`; and where the two differ at position `k`, the one with the
/// smaller code point there sorts first.
pub proof fn lemma_name_order_by_code_point(a: Seq<char>, b: Seq<char>, k: int)
    requires
        0 <= k <= a.len(),
        k <= b.len(),
        a.take(k) == b.take(k),
    ensures
        k == a.len() ==> name_le(a, b),
        k < a.len() && k == b.len() ==> !name_le(a, b),
        k < a.len() && k < b.len() && a[k] != b[k] ==> (name_le(a, b) <==> a[k] < b[k]),
    decreases k,
{
    if k > 0 {
        assert(a[0] == b[0]) by {
            assert(a.take(k)[0] == a[0]);
            assert(b.take(k)[0] == b[0]);
        }
        let a1 = a.drop_first().take(k - 1);
        let b1 = b.drop_first().take(k - 1);
        assert forall|i: int| 0 <= i < k - 1 implies #[trigger] a1[i] == b1[i] by {
            assert(a.take(k)[i + 1] == a[i + 1]);
            assert(b.take(k)[i + 1] == b[i + 1]);
        }
        assert(a1 =~= b1);
        lemma_name_order_by_code_point(a.drop_first(), b.drop_first(), k - 1);
        assert(name_le(a, b) == name_le(a.drop_first(), b.drop_first()));
        if k < a.len() {
            assert(a.drop_first()[k - 1] == a[k]);
        }
        if k < b.len() {
            assert(b.drop_first()[k - 1] == b[k]);
        }
    }
}

proof fn lemma_name_le_total(a: Seq<char>, b: Seq<char>)
    ensures
        name_le(a, b) || name_le(b, a),
    decreases a.len(),
{
    if a.len() > 0 && b.len() > 0 && a[0] == b[0] {
        lemma_name_le_total(a.drop_first(), b.drop_first());
    }
}

proof fn lemma_name_le_trans(a: Seq<char>, b: Seq<char>, c: Seq<char>)
    requires
        name_le(a, b),
        name_le(b, c),
    ensures
        name_le(a, c),
    decreases a.len(),
{
    if a.len() > 0 && b.len() > 0 && c.len() > 0 && a[0] == b[0] && b[0] == c[0] {
        lemma_name_le_trans(a.drop_first(), b.drop_first(), c.drop_first());
    }
}

/// Whether `a` sorts no later than `b`.
pub fn name_less_or_equal(a: &str, b: &str) -> (r: bool)
    ensures
        r == name_le(a@, b@),
{
    let x = chars_of(a);
    let y = chars_of(b);
    let mut i: usize = 0;
    assert(a@.skip(0) =~= a@);
    assert(b@.skip(0) =~= b@);
    while i < x.len() && i < y.len() && x[i] == y[i]
        invariant
            x@ == a@,
            y@ == b@,
            i <= x@.len(),
            i <= y@.len(),
            name_le(a@, b@) == name_le(a@.skip(i as int), b@.skip(i as int)),
        decreases x@.len() - i,
    {
        assert(a@.skip(i as int).drop_first() =~= a@.skip(i + 1));
        assert(b@.skip(i as int).drop_first() =~= b@.skip(i + 1));
        i = i + 1;
    }
    if i == x.len() {
        true
    } else if i == y.len() {
        false
    } else {
        x[i] < y[i]
    }
}

/// The profiles are in order of their names.
pub open spec fn sorted_by_name(s: Seq<Profile>) -> bool {
    forall|i: int, j: int| 0 <= i < j < s.len() ==> name_le(#[trigger] s[i].name@, #[trigger] s[j].name@)
}

/// `r` holds the profiles of `s` rearranged by `perm` (`r[i]` is `s[perm[i]]`),
/// each taken once, and profiles of the same name keep their relative order.
pub open spec fn stable_rearrangement(r: Seq<Profile>, s: Seq<Profile>, perm: Seq<int>) -> bool {
    &&& perm.len() == r.len()
    &&& r.len() == s.len()
    &&& forall|i: int| 0 <= i < r.len() ==> 0 <= #[trigger] perm[i] < s.len() && r[i] == s[perm[i]]
    &&& forall|i: int, j: int| 0 <= i < j < r.len() ==> #[trigger] perm[i] != #[trigger] perm[j]
    &&& forall|i: int, j: int|
        0 <= i < j < r.len() && r[i].name@ == r[j].name@ ==> #[trigger] perm[i] < #[trigger] perm[j]
}

proof fn lemma_name_le_refl(a: Seq<char>)
    ensures
        name_le(a, a),
    decreases a.len(),
{
    if a.len() > 0 {
        lemma_name_le_refl(a.drop_first());
    }
}

/// The profiles ordered by name, profiles of the same name in their given
/// order (as `ProfileStore::list` returns them).
pub fn sort_by_name(profiles: Vec<Profile>) -> (r: Vec<Profile>)
    ensures
        sorted_by_name(r@),
        r@.to_multiset() == profiles@.to_multiset(),
        exists|perm: Seq<int>| stable_rearrangement(r@, profiles@, perm),
{
    broadcast use vstd::seq_lib::group_to_multiset_ensures;

    let mut out: Vec<Profile> = Vec::new();
    let mut rest = profiles;
    let ghost given = rest@;
    // `perm[i]` is the position in `given` of `out[i]`.
    let ghost mut perm: Seq<int> = Seq::empty();
    // `rest` is consumed from the back, so each profile taken comes before
    // every profile already in `out`.
    while rest.len() > 0
        invariant
            sorted_by_name(out@),
            out@.to_multiset().add(rest@.to_multiset()) == given.to_multiset(),
            rest@ == given.take(rest@.len() as int),
            rest@.len() <= given.len(),
            perm.len() == out@.len(),
            out@.len() + rest@.len() == given.len(),
            forall|i: int|
                0 <= i < out@.len() ==> rest@.len() <= #[trigger] perm[i] < given.len()
                    && out@[i] == given[perm[i]],
            forall|i: int, j: int| 0 <= i < j < out@.len() ==> #[trigger] perm[i] != #[trigger] perm[j],
            forall|i: int, j: int|
                0 <= i < j < out@.len() && out@[i].name@ == out@[j].name@ ==> #[trigger] perm[i]
                    < #[trigger] perm[j],
        decreases rest@.len(),
    {
        let ghost before = rest@;
        let p = rest.pop().unwrap();
        let ghost n = rest@.len() as int;
        assert(before =~= rest@.push(p));
        assert(p == given[n]);
        assert(rest@ =~= given.take(n));
        let mut j: usize = 0;
        while j < out.len() && !name_less_or_equal(p.name.as_str(), out[j].name.as_str())
            invariant
                j <= out@.len(),
                forall|k: int| 0 <= k < j ==> !name_le(p.name@, #[trigger] out@[k].name@),
            decreases out@.len() - j,
        {
            j = j + 1;
        }
        let ghost old_out = out@;
        let ghost old_perm = perm;
        proof {
            assert forall|k: int| j <= k < old_out.len() implies name_le(
                p.name@,
                #[trigger] old_out[k].name@,
            ) by {
                if k > j {
                    lemma_name_le_trans(p.name@, old_out[j as int].name@, old_out[k].name@);
                }
            }
            assert forall|k: int| 0 <= k < j implies name_le(#[trigger] old_out[k].name@, p.name@)
                && old_out[k].name@ != p.name@ by {
                lemma_name_le_total(old_out[k].name@, p.name@);
                if old_out[k].name@ == p.name@ {
                    lemma_name_le_refl(p.name@);
                }
            }
        }
        out.insert(j, p);
        proof {
            perm = old_perm.insert(j as int, n);
            let s = out@;
            assert(s == old_out.insert(j as int, p));
            assert forall|a: int, b: int| 0 <= a < b < s.len() implies name_le(
                #[trigger] s[a].name@,
                #[trigger] s[b].name@,
            ) by {
                if a < j && b == j {
                } else if a < j && b > j {
                    assert(s[b] == old_out[b - 1]);
                    lemma_name_le_trans(s[a].name@, p.name@, s[b].name@);
                } else if a == j {
                    assert(s[b] == old_out[b - 1]);
                } else if b < j {
                } else {
                    assert(s[a] == old_out[a - 1]);
                    assert(s[b] == old_out[b - 1]);
                }
            }
            assert forall|i: int|
                0 <= i < s.len() implies n <= #[trigger] perm[i] < given.len() && s[i]
                == given[perm[i]] by {
                if i > j {
                    assert(perm[i] == old_perm[i - 1]);
                    assert(s[i] == old_out[i - 1]);
                } else if i < j {
                    assert(perm[i] == old_perm[i]);
                }
            }
            assert forall|a: int, b: int| 0 <= a < b < s.len() implies #[trigger] perm[a]
                != #[trigger] perm[b] by {
                if a < j && b > j {
                    assert(perm[b] == old_perm[b - 1]);
                } else if a > j {
                    assert(perm[a] == old_perm[a - 1]);
                    assert(perm[b] == old_perm[b - 1]);
                } else if a == j {
                    assert(perm[b] == old_perm[b - 1]);
                    assert(old_perm[b - 1] >= n + 1);
                } else if b == j {
                    assert(old_perm[a] >= n + 1);
                }
            }
            assert forall|a: int, b: int|
                0 <= a < b < s.len() && s[a].name@ == s[b].name@ implies #[trigger] perm[a]
                < #[trigger] perm[b] by {
                if a < j && b > j {
                    assert(s[b] == old_out[b - 1]);
                    assert(perm[b] == old_perm[b - 1]);
                    assert(name_le(s[a].name@, p.name@));
                    assert(name_le(p.name@, s[b].name@));
                    assert(s[a].name@ != p.name@);
                    // s[a] < p <= s[b], so the names differ.
                    lemma_name_le_antisym(p.name@, s[b].name@);
                } else if a > j {
                    assert(s[a] == old_out[a - 1]);
                    assert(s[b] == old_out[b - 1]);
                    assert(perm[a] == old_perm[a - 1]);
                    assert(perm[b] == old_perm[b - 1]);
                } else if a == j {
                    assert(perm[b] == old_perm[b - 1]);
                    assert(old_perm[b - 1] >= n + 1);
                } else if b == j {
                    assert(s[a] == old_out[a]);
                } else {
                    assert(s[a] == old_out[a]);
                    assert(s[b] == old_out[b]);
                }
            }
            vstd::seq_lib::to_multiset_insert(old_out, j as int, p);
            vstd::seq_lib::to_multiset_build(rest@, p);
            assert(out@.to_multiset() == old_out.to_multiset().insert(p));
            assert(before.to_multiset() == rest@.to_multiset().insert(p));
            assert(out@.to_multiset().add(rest@.to_multiset()) =~= old_out.to_multiset().add(
                before.to_multiset(),
            ));
        }
    }
    assert(rest@.to_multiset() =~= vstd::multiset::Multiset::empty());
    assert(out@.to_multiset().add(rest@.to_multiset()) =~= out@.to_multiset());
    assert(stable_rearrangement(out@, given, perm));
    out
}

proof fn lemma_name_le_antisym(a: Seq<char>, b: Seq<char>)
    requires
        name_le(a, b),
        name_le(b, a),
    ensures
        a == b,
    decreases a.len(),
{
    if a.len() > 0 && b.len() > 0 && a[0] == b[0] {
        lemma_name_le_antisym(a.drop_first(), b.drop_first());
        assert(a =~= seq![a[0]] + a.drop_first());
        assert(b =~= seq![b[0]] + b.drop_first());
    } else if a.len() == 0 && b.len() == 0 {
        assert(a =~= b);
    }
}

} // verus!
