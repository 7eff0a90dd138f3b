//! Ruby versions: semantic versions as plain values, read and ordered by the
//! `semver` crate.
use vstd::prelude::*;
use crate::text::{chars_of, concat, string_of};

verus! {

/// The decimal digit character for `d < 10`.
pub open spec fn digit_char(d: nat) -> char {
    if d == 0 {
        '0'
    } else if d == 1 {
        '1'
    } else if d == 2 {
        '2'
    } else if d == 3 {
        '3'
    } else if d == 4 {
        '4'
    } else if d == 5 {
        '5'
    } else if d == 6 {
        '6'
    } else if d == 7 {
        '7'
    } else if d == 8 {
        '8'
    } else {
        '9'
    }
}

/// The decimal text of `n`, without leading zeros.
pub open spec fn decimal(n: nat) -> Seq<char>
    decreases n,
{
    if n < 10 {
        seq![digit_char(n)]
    } else {
        decimal(n / 10).push(digit_char(n % 10))
    }
}

fn digit_of(d: u64) -> (c: char)
    requires
        d < 10,
    ensures
        c == digit_char(d as nat),
{
    if d == 0 {
        '0'
    } else if d == 1 {
        '1'
    } else if d == 2 {
        '2'
    } else if d == 3 {
        '3'
    } else if d == 4 {
        '4'
    } else if d == 5 {
        '5'
    } else if d == 6 {
        '6'
    } else if d == 7 {
        '7'
    } else if d == 8 {
        '8'
    } else {
        '9'
    }
}

fn push_decimal(n: u64, out: &mut Vec<char>)
    ensures
        final(out)@ == old(out)@ + decimal(n as nat),
    decreases n,
{
    if n >= 10 {
        push_decimal(n / 10, out);
    }
    out.push(digit_of(n % 10));
    proof {
        if n >= 10 {
            assert(decimal(n as nat) == decimal((n / 10) as nat).push(digit_char((n % 10) as nat)));
        }
    }
}

/// The decimal text of `n`.
pub fn decimal_text(n: u64) -> (r: String)
    ensures
        r@ == decimal(n as nat),
{
    let mut v: Vec<char> = Vec::new();
    push_decimal(n, &mut v);
    assert(v@ =~= decimal(n as nat));
    string_of(v.as_slice())
}

/// A version as plain values: major, minor, patch, pre-release, build.
pub type VersionParts = (u64, u64, u64, Seq<char>, Seq<char>);

/// A semantic version, as `semver::Version` holds it: three numbers and the
/// pre-release and build-metadata texts (empty when absent).
#[derive(Debug, Clone, PartialEq, Eq)]
pub struct RubyVersion {
    pub major: u64,
    pub minor: u64,
    pub patch: u64,
    pub pre: String,
    pub build: String,
}

impl View for RubyVersion {
    type V = VersionParts;

    open spec fn view(&self) -> VersionParts {
        (self.major, self.minor, self.patch, self.pre@, self.build@)
    }
}

/// A release version: no pre-release and no build metadata.
pub open spec fn is_release(v: VersionParts) -> bool {
    v.3.len() == 0 && v.4.len() == 0
}

/// The lexicographic order of `(major, minor, patch)`.
pub open spec fn triple_lt(a: VersionParts, b: VersionParts) -> bool {
    ||| a.0 < b.0
    ||| (a.0 == b.0 && a.1 < b.1)
    ||| (a.0 == b.0 && a.1 == b.1 && a.2 < b.2)
}

/// How `semver` displays a version: `major.minor.patch`, then `-pre` and
/// `+build` when present.
pub open spec fn version_text(v: VersionParts) -> Seq<char> {
    let core = decimal(v.0 as nat) + seq!['.'] + decimal(v.1 as nat) + seq!['.'] + decimal(
        v.2 as nat,
    );
    let with_pre = if v.3.len() > 0 {
        core + seq!['-'] + v.3
    } else {
        core
    };
    if v.4.len() > 0 {
        with_pre + seq!['+'] + v.4
    } else {
        with_pre
    }
}

/// The Ruby ABI version of `v`: `major.minor.0`.
pub open spec fn abi_text(v: VersionParts) -> Seq<char> {
    decimal(v.0 as nat) + seq!['.'] + decimal(v.1 as nat) + seq!['.', '0']
}

/// An ASCII decimal digit.
pub open spec fn is_digit(c: char) -> bool {
    '0' <= c && c <= '9'
}

/// A non-empty run of ASCII digits.
pub open spec fn is_digits(s: Seq<char>) -> bool {
    s.len() > 0 && forall|i: int| 0 <= i < s.len() ==> is_digit(#[trigger] s[i])
}

/// The value of a run of ASCII digits.
pub open spec fn digits_value(s: Seq<char>) -> nat
    decreases s.len(),
{
    if s.len() == 0 {
        0
    } else {
        digits_value(s.drop_last()) * 10 + ((s.last() as nat) - ('0' as nat)) as nat
    }
}

/// A number as `semver` accepts it: digits, no leading zero, fitting `u64`.
pub open spec fn is_semver_number(s: Seq<char>) -> bool {
    &&& is_digits(s)
    &&& (s.len() == 1 || s[0] != '0')
    &&& digits_value(s) <= u64::MAX
}

/// `a.b.c`.
pub open spec fn dotted3(a: Seq<char>, b: Seq<char>, c: Seq<char>) -> Seq<char> {
    a + seq!['.'] + b + seq!['.'] + c
}

/// What `semver` makes of the text `a.b.c` when `a`, `b`, `c` are runs of
/// digits: the release version of their values, or nothing when one of them
/// has a leading zero or does not fit `u64`.
pub open spec fn release_parse(a: Seq<char>, b: Seq<char>, c: Seq<char>) -> Option<VersionParts> {
    if is_semver_number(a) && is_semver_number(b) && is_semver_number(c) {
        Some(
            (
                digits_value(a) as u64,
                digits_value(b) as u64,
                digits_value(c) as u64,
                Seq::<char>::empty(),
                Seq::<char>::empty(),
            ),
        )
    } else {
        None
    }
}

/// What `semver::Version::parse` returns for a text, as plain values.
pub uninterp spec fn semver_parse(text: Seq<char>) -> Option<VersionParts>;

/// Whether `semver` orders the first version before the second.
pub uninterp spec fn semver_lt(a: VersionParts, b: VersionParts) -> bool;

/// No version of `s` comes after `v` in `semver`'s order, but for those
/// equal to it.
pub open spec fn newest_among(v: VersionParts, s: Seq<VersionParts>) -> bool {
    forall|j: int| 0 <= j < s.len() ==> #[trigger] s[j] == v || !semver_lt(v, s[j])
}

/// The order in which versions are compared: `semver`'s order, which
/// between release versions is that of `(major, minor, patch)`.
pub open spec fn version_lt(a: VersionParts, b: VersionParts) -> bool {
    if is_release(a) && is_release(b) {
        triple_lt(a, b)
    } else {
        semver_lt(a, b)
    }
}

/// The views of an optional version.
pub open spec fn opt_parts(v: Option<RubyVersion>) -> Option<VersionParts> {
    match v {
        Some(x) => Some(x@),
        None => None,
    }
}

/// Calls `semver::Version::parse`.
///
/// Claims: the result is the named [`semver_parse`] of the text; the parse
/// accepts only canonical text, so displaying its result gives the text back;
/// and on `a.b.c` with digit runs it gives the release version of their values
/// exactly when none has a leading zero or overflows `u64` (the number rules
/// of `semver`'s `numeric_identifier`); a pre-release is read only after a
/// `-` and build metadata only after a `+`.
#[verifier::external_body]
fn semver_parse_text(text: &str) -> (r: Option<RubyVersion>)
    ensures
        opt_parts(r) == semver_parse(text@),
        r matches Some(v) ==> version_text(v@) == text@,
        r matches Some(v) ==> (!text@.contains('-') ==> v.pre@.len() == 0),
        r matches Some(v) ==> (!text@.contains('+') ==> v.build@.len() == 0),
        forall|a: Seq<char>, b: Seq<char>, c: Seq<char>|
            is_digits(a) && is_digits(b) && is_digits(c) && text@ == #[trigger] dotted3(a, b, c)
                ==> opt_parts(r) == release_parse(a, b, c),
{
    match semver::Version::parse(text) {
        Ok(v) => Some(
            RubyVersion {
                major: v.major,
                minor: v.minor,
                patch: v.patch,
                pre: v.pre.as_str().to_string(),
                build: v.build.as_str().to_string(),
            },
        ),
        Err(_) => None,
    }
}

/// Calls `<semver::Version as Ord>` through `<`, on the versions made of the
/// given parts.
///
/// Claims: the result is the named [`semver_lt`]; between two release versions
/// it is the lexicographic order of `(major, minor, patch)`, as the derived
/// `Ord` of `semver::Version` compares those fields first and empty
/// pre-release and build metadata compare equal. As `Ord` is a total order,
/// when `a` comes before `b` then `b` does not come before `a`, and when it
/// does not then `b` comes before everything that `a` comes before. A
/// pre-release or build text that `semver` would not accept is compared as
/// empty.
#[verifier::external_body]
fn semver_less(a: &RubyVersion, b: &RubyVersion) -> (r: bool)
    ensures
        r == semver_lt(a@, b@),
        is_release(a@) && is_release(b@) ==> (r == triple_lt(a@, b@)),
        r ==> !semver_lt(b@, a@),
        !r ==> forall|c: VersionParts| #[trigger] semver_lt(a@, c) ==> semver_lt(b@, c),
{
    let x = semver::Version {
        major: a.major,
        minor: a.minor,
        patch: a.patch,
        pre: semver::Prerelease::new(&a.pre).unwrap_or(semver::Prerelease::EMPTY),
        build: semver::BuildMetadata::new(&a.build).unwrap_or(semver::BuildMetadata::EMPTY),
    };
    let y = semver::Version {
        major: b.major,
        minor: b.minor,
        patch: b.patch,
        pre: semver::Prerelease::new(&b.pre).unwrap_or(semver::Prerelease::EMPTY),
        build: semver::BuildMetadata::new(&b.build).unwrap_or(semver::BuildMetadata::EMPTY),
    };
    x < y
}

impl RubyVersion {
    /// `Version::new`: a release version.
    pub fn new(major: u64, minor: u64, patch: u64) -> (r: RubyVersion)
        ensures
            r@ == (major, minor, patch, Seq::<char>::empty(), Seq::<char>::empty()),
    {
        RubyVersion { major, minor, patch, pre: String::new(), build: String::new() }
    }

    /// `Version::parse`.
    pub fn parse(text: &str) -> (r: Option<RubyVersion>)
        ensures
            opt_parts(r) == semver_parse(text@),
            r matches Some(v) ==> version_text(v@) == text@,
            r matches Some(v) ==> (!text@.contains('-') ==> v.pre@.len() == 0),
            r matches Some(v) ==> (!text@.contains('+') ==> v.build@.len() == 0),
            forall|a: Seq<char>, b: Seq<char>, c: Seq<char>|
                is_digits(a) && is_digits(b) && is_digits(c) && text@ == #[trigger] dotted3(a, b, c)
                    ==> opt_parts(r) == release_parse(a, b, c),
    {
        semver_parse_text(text)
    }

    /// A copy of this version.
    pub fn duplicate(&self) -> (r: RubyVersion)
        ensures
            r@ == self@,
    {
        RubyVersion {
            major: self.major,
            minor: self.minor,
            patch: self.patch,
            pre: self.pre.clone(),
            build: self.build.clone(),
        }
    }

    /// Are the two versions equal (all five parts)?
    pub fn same_as(&self, other: &RubyVersion) -> (r: bool)
        ensures
            r == (self@ == other@),
    {
        let a = chars_of(self.pre.as_str());
        let b = chars_of(other.pre.as_str());
        let c = chars_of(self.build.as_str());
        let d = chars_of(other.build.as_str());
        self.major == other.major && self.minor == other.minor && self.patch == other.patch
            && crate::text::chars_eq(a.as_slice(), b.as_slice()) && crate::text::chars_eq(
            c.as_slice(),
            d.as_slice(),
        )
    }

    /// Does `semver` order this version before `other`?
    pub fn precedes(&self, other: &RubyVersion) -> (r: bool)
        ensures
            r == semver_lt(self@, other@),
            r == version_lt(self@, other@),
            is_release(self@) && is_release(other@) ==> (r == triple_lt(self@, other@)),
            r ==> !semver_lt(other@, self@),
            !r ==> forall|c: VersionParts| #[trigger] semver_lt(self@, c) ==> semver_lt(other@, c),
    {
        semver_less(self, other)
    }

    /// The version as `semver` displays it, e.g. `3.2.1` or `3.4.0-preview1`.
    pub fn to_text(&self) -> (r: String)
        ensures
            r@ == version_text(self@),
    {
        let mut s = decimal_text(self.major);
        s.append(".");
        let mi = decimal_text(self.minor);
        s.append(mi.as_str());
        s.append(".");
        let pa = decimal_text(self.patch);
        s.append(pa.as_str());
        proof {
            reveal_strlit(".");
        }
        let ghost core = s@;
        if !self.pre.as_str().is_empty() {
            s.append("-");
            s.append(self.pre.as_str());
        }
        let ghost with_pre = s@;
        if !self.build.as_str().is_empty() {
            s.append("+");
            s.append(self.build.as_str());
        }
        proof {
            reveal_strlit("-");
            reveal_strlit("+");
            assert(core =~= decimal(self.major as nat) + seq!['.'] + decimal(self.minor as nat)
                + seq!['.'] + decimal(self.patch as nat));
        }
        s
    }

}

/// Ruby's ABI version of a version (`RbConfig::CONFIG["ruby_version"]`):
/// the directory name `major.minor.0` that groups compatible libraries.
pub trait RubyVersionExt {
    /// The ABI version, `major.minor.0`.
    fn ruby_abi_version(&self) -> String;
}

impl RubyVersionExt for RubyVersion {
    fn ruby_abi_version(&self) -> (r: String)
        ensures
            r@ == abi_text(self@),
    {
        let mut s = decimal_text(self.major);
        s.append(".");
        let mi = decimal_text(self.minor);
        s.append(mi.as_str());
        s.append(".0");
        proof {
            reveal_strlit(".");
            reveal_strlit(".0");
            assert(s@ =~= abi_text(self@));
        }
        s
    }
}

} // verus!
