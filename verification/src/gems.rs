//! Gem installation directories.
use vstd::prelude::*;
use crate::path::{join, law_join_extends, lemma_prefix_through_join, path_join};
use crate::version::{decimal, decimal_text, RubyVersion, VersionParts};

verus! {

/// The full version directory name `major.minor.patch`.
pub open spec fn full_version_dir(major: u64, minor: u64, patch: u64) -> Seq<char> {
    decimal(major as nat) + seq!['.'] + decimal(minor as nat) + seq!['.'] + decimal(patch as nat)
}

/// `base/ruby/<major.minor.patch>`.
pub open spec fn gem_home_for(base: Seq<char>, major: u64, minor: u64, patch: u64) -> Seq<char> {
    path_join(path_join(base, "ruby"@), full_version_dir(major, minor, patch))
}

/// The decimal text of a number begins with a digit.
proof fn lemma_decimal_starts_with_digit(n: nat)
    ensures
        decimal(n).len() > 0,
        decimal(n)[0] != '/',
    decreases n,
{
    if n >= 10 {
        lemma_decimal_starts_with_digit(n / 10);
    }
}

/// The gem runtime of a base directory lies under it: the gem home is
/// `<base>/ruby/<major.minor.patch>` and begins with `<base>/ruby`, and the
/// binary directory is the gem home's `bin`.
pub proof fn law_gem_runtime_lies_under_base(base: Seq<char>, v: VersionParts)
    ensures
        path_join(base, "ruby"@).is_prefix_of(gem_runtime_for(base, v).0),
        base.is_prefix_of(gem_runtime_for(base, v).0),
        full_version_dir(v.0, v.1, v.2).is_suffix_of(gem_runtime_for(base, v).0),
        gem_runtime_for(base, v).1 == path_join(gem_runtime_for(base, v).0, "bin"@),
        gem_runtime_for(base, v).0.is_prefix_of(gem_runtime_for(base, v).1),
{
    reveal_strlit("ruby");
    reveal_strlit("bin");
    lemma_decimal_starts_with_digit(v.0 as nat);
    let ver = full_version_dir(v.0, v.1, v.2);
    assert(ver[0] == decimal(v.0 as nat)[0]);
    let rb = path_join(base, "ruby"@);
    law_join_extends(base, "ruby"@);
    law_join_extends(rb, ver);
    lemma_prefix_through_join(base, rb, ver);
    law_join_extends(path_join(rb, ver), "bin"@);
}

/// A gem home and its binary directory.
#[derive(Debug, Clone, PartialEq, Eq)]
pub struct GemRuntime {
    pub gem_home: String,
    pub gem_bin: String,
}

impl View for GemRuntime {
    type V = (Seq<char>, Seq<char>);

    open spec fn view(&self) -> (Seq<char>, Seq<char>) {
        (self.gem_home@, self.gem_bin@)
    }
}

/// The gem home and binary directory of `GemRuntime::for_base_dir(base, v)`.
pub open spec fn gem_runtime_for(base: Seq<char>, v: VersionParts) -> (Seq<char>, Seq<char>) {
    let home = gem_home_for(base, v.0, v.1, v.2);
    (home, path_join(home, "bin"@))
}

/// The text `major.minor.patch` of a version.
pub fn full_version_text(v: &RubyVersion) -> (r: String)
    ensures
        r@ == full_version_dir(v.major, v.minor, v.patch),
{
    let mut s = decimal_text(v.major);
    s.append(".");
    let mi = decimal_text(v.minor);
    s.append(mi.as_str());
    s.append(".");
    let pa = decimal_text(v.patch);
    s.append(pa.as_str());
    proof {
        reveal_strlit(".");
        assert(s@ =~= full_version_dir(v.major, v.minor, v.patch));
    }
    s
}

impl GemRuntime {
    /// The gem runtime under a base directory: the gem home is
    /// `base/ruby/<major.minor.patch>` (the full version, without pre-release
    /// or build), its binaries in `bin` below it.
    pub fn for_base_dir(base: &str, ruby_version: &RubyVersion) -> (r: GemRuntime)
        ensures
            r@ == gem_runtime_for(base@, ruby_version@),
    {
        let ver = full_version_text(ruby_version);
        let ruby = join(base, "ruby");
        let gem_home = join(ruby.as_str(), ver.as_str());
        let gem_bin = join(gem_home.as_str(), "bin");
        GemRuntime { gem_home, gem_bin }
    }
}

} // verus!
