//! What Pulsar prints: the environment check report and profile listings.

use vstd::prelude::*;

use crate::profile::model::Profile;
use crate::text::{decimal, push_char, push_decimal, push_str, to_string};

verus! {

/// The outcome of the environment checks (`pulsar doctor`): one line per
/// check, marked `✓` or `✗`.
#[derive(Debug)]
pub struct DoctorReport {
    lines: Vec<String>,
    failed: bool,
}

impl DoctorReport {
    /// The lines reported so far, in order.
    pub closed spec fn report_lines(&self) -> Seq<Seq<char>> {
        self.lines@.map_values(|l: String| l@)
    }

    /// Whether some check reported so far failed.
    pub closed spec fn has_failure(&self) -> bool {
        self.failed
    }

    /// An empty report.
    pub fn new() -> (r: Self)
        ensures
            r.report_lines() == Seq::<Seq<char>>::empty(),
            !r.has_failure(),
    {
        let r = DoctorReport { lines: Vec::new(), failed: false };
        assert(r.report_lines() =~= Seq::<Seq<char>>::empty());
        r
    }

    fn record(&mut self, mark: &str, text: &str, ok: bool)
        ensures
            final(self).report_lines() == old(self).report_lines().push(mark@ + text@),
            final(self).has_failure() == (old(self).has_failure() || !ok),
    {
        let mut line = to_string(mark);
        push_str(&mut line, text);
        self.lines.push(line);
        if !ok {
            self.failed = true;
        }
        assert(self.report_lines() =~= old(self).report_lines().push(mark@ + text@));
    }

    /// Records a check that passed: `✓ <text>`.
    pub fn pass(&mut self, text: &str)
        ensures
            final(self).report_lines() == old(self).report_lines().push("✓ "@ + text@),
            final(self).has_failure() == old(self).has_failure(),
    {
        self.record("✓ ", text, true);
    }

    /// Records a check that failed: `✗ <text>`.
    pub fn fail(&mut self, text: &str)
        ensures
            final(self).report_lines() == old(self).report_lines().push("✗ "@ + text@),
            final(self).has_failure(),
    {
        self.record("✗ ", text, false);
    }

    /// The lines reported so far.
    pub fn lines(&self) -> (r: &Vec<String>)
        ensures
            r@.map_values(|l: String| l@) == self.report_lines(),
    {
        &self.lines
    }

    /// Whether every check reported so far passed.
    pub fn all_passed(&self) -> (b: bool)
        ensures
            b == !self.has_failure(),
    {
        !self.failed
    }

    /// The closing line: whether all checks passed.
    pub fn summary(&self) -> (s: &'static str)
        ensures
            !self.has_failure() ==> s@ == "\nAll checks passed."@,
            self.has_failure() ==> s@ == "\nSome checks failed."@,
    {
        if self.all_passed() {
            "\nAll checks passed."
        } else {
            "\nSome checks failed."
        }
    }
}

/// `n` spaces.
pub open spec fn spaces(n: int) -> Seq<char> {
    Seq::new(if n > 0 {
        n as nat
    } else {
        0
    }, |i: int| ' ')
}

/// `s` left-aligned in a field of `width` characters (`{:<width}`): padded
/// with spaces on the right, never cut.
pub open spec fn pad_right(s: Seq<char>, width: int) -> Seq<char> {
    s + spaces(width - s.len())
}

/// Appends `t` left-aligned in a field of `width` characters.
fn push_padded(s: &mut String, t: &str, width: usize)
    ensures
        final(s)@ == old(s)@ + pad_right(t@, width as int),
{
    push_str(s, t);
    let n = crate::text::chars_of(t).len();
    let mut k: usize = n;
    while k < width
        invariant
            n == t@.len(),
            k == n || k <= width,
            s@ == old(s)@ + t@ + spaces(
                if k >= n {
                    (k - n) as int
                } else {
                    0
                },
            ),
            k >= n,
        decreases width - k,
    {
        push_char(s, ' ');
        assert(spaces((k - n) as int).push(' ') =~= spaces((k + 1 - n) as int));
        k = k + 1;
    }
    assert(spaces(if k >= n {
        (k - n) as int
    } else {
        0
    }) =~= spaces(width as int - t@.len()));
}

/// The header line of the profile listing.
pub open spec fn spec_listing_header() -> Seq<char> {
    pad_right("NAME"@, 20) + " "@ + pad_right("PROTOCOL"@, 15) + " "@ + pad_right("PORT"@, 10)
        + " HOST"@
}

/// The header line of the profile listing.
pub fn listing_header() -> (s: String)
    ensures
        s@ == spec_listing_header(),
{
    let mut s = String::new();
    push_padded(&mut s, "NAME", 20);
    push_str(&mut s, " ");
    push_padded(&mut s, "PROTOCOL", 15);
    push_str(&mut s, " ");
    push_padded(&mut s, "PORT", 10);
    push_str(&mut s, " HOST");
    assert(s@ =~= spec_listing_header());
    s
}

/// The line of profile `p` in the listing: name, protocol, port and host.
pub open spec fn spec_listing_row(p: Profile) -> Seq<char> {
    pad_right(p.name@, 20) + " "@ + pad_right("openvpn-cloak"@, 15) + " "@ + pad_right(
        decimal(p.remote_port as nat),
        10,
    ) + " "@ + p.remote_host@
}

/// The line of profile `p` in the listing.
pub fn listing_row(p: &Profile) -> (s: String)
    ensures
        s@ == spec_listing_row(*p),
{
    let mut s = String::new();
    push_padded(&mut s, p.name.as_str(), 20);
    push_str(&mut s, " ");
    push_padded(&mut s, p.protocol_type.as_str(), 15);
    push_str(&mut s, " ");
    let port = crate::text::decimal_string(p.remote_port as u64);
    push_padded(&mut s, port.as_str(), 10);
    push_str(&mut s, " ");
    push_str(&mut s, p.remote_host.as_str());
    assert(s@ =~= spec_listing_row(*p));
    s
}

/// The lines showing the details of profile `p`.
pub fn profile_details(p: &Profile) -> (lines: Vec<String>)
    ensures
        lines@.len() == 6,
        lines@[0]@ == "Profile:     "@ + p.name@,
        lines@[1]@ == "Protocol:    "@ + "openvpn-cloak"@,
        lines@[2]@ == "Remote host: "@ + p.remote_host@,
        lines@[3]@ == "Remote port: "@ + decimal(p.remote_port as nat),
        lines@[4]@ == "Local port:  "@ + decimal(p.local_cloak_port as nat),
        lines@[5]@ == "Created:     "@ + p.created_at@,
{
    let mut lines: Vec<String> = Vec::new();
    let mut l0 = to_string("Profile:     ");
    push_str(&mut l0, p.name.as_str());
    lines.push(l0);
    let mut l1 = to_string("Protocol:    ");
    push_str(&mut l1, p.protocol_type.as_str());
    lines.push(l1);
    let mut l2 = to_string("Remote host: ");
    push_str(&mut l2, p.remote_host.as_str());
    lines.push(l2);
    let mut l3 = to_string("Remote port: ");
    push_decimal(&mut l3, p.remote_port as u64);
    lines.push(l3);
    let mut l4 = to_string("Local port:  ");
    push_decimal(&mut l4, p.local_cloak_port as u64);
    lines.push(l4);
    let mut l5 = to_string("Created:     ");
    push_str(&mut l5, p.created_at.as_str());
    lines.push(l5);
    lines
}

/// The message confirming that profile `name` was imported.
pub fn import_success_message(name: &str) -> (s: String)
    ensures
        s@ == "Profile '"@ + name@ + "' imported successfully."@,
{
    let mut s = to_string("Profile '");
    push_str(&mut s, name);
    push_str(&mut s, "' imported successfully.");
    s
}

} // verus!
