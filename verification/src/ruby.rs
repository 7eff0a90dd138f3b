//! Ruby installations: what they are and how they are found in a directory.
use vstd::prelude::*;
use crate::gems::{full_version_dir, gem_runtime_for, law_gem_runtime_lies_under_base, GemRuntime};
use crate::path::{join, law_join_extends, path_join};
use crate::text::{concat, owned};
use crate::version::{RubyVersionExt, abi_text, version_text, RubyVersion, VersionParts};

verus! {

/// The kind of a Ruby implementation.
#[derive(Debug, Clone, Copy, PartialEq, Eq, Structural)]
pub enum RubyType {
    /// MRI / CRuby
    CRuby,
}

impl RubyType {
    /// The name of the implementation.
    pub fn as_str(&self) -> (r: &'static str)
        ensures
            r@ == "CRuby"@,
    {
        match self {
            RubyType::CRuby => "CRuby",
        }
    }
}

/// A Ruby installation: its kind, version and root directory.
#[derive(Debug, Clone, PartialEq, Eq)]
pub struct RubyRuntime {
    pub kind: RubyType,
    pub version: RubyVersion,
    pub root: String,
}

/// A Ruby installation as plain values.
pub type RuntimeParts = (RubyType, VersionParts, Seq<char>);

impl View for RubyRuntime {
    type V = RuntimeParts;

    open spec fn view(&self) -> RuntimeParts {
        (self.kind, self.version@, self.root@)
    }
}

/// `<root>/lib/ruby/gems/<major.minor.0>`.
pub open spec fn lib_dir_of(r: RuntimeParts) -> Seq<char> {
    path_join(path_join(path_join(path_join(r.2, "lib"@), "ruby"@), "gems"@), abi_text(r.1))
}

impl RubyRuntime {
    /// A Ruby installation.
    pub fn new(kind: RubyType, version: RubyVersion, root: &str) -> (r: RubyRuntime)
        ensures
            r.kind == kind,
            r.version == version,
            r.root@ == root@,
    {
        RubyRuntime { kind, version, root: owned(root) }
    }

    /// A copy of this installation.
    pub fn duplicate(&self) -> (r: RubyRuntime)
        ensures
            r@ == self@,
    {
        RubyRuntime { kind: self.kind, version: self.version.duplicate(), root: self.root.clone() }
    }

    /// Identifier like `CRuby-3.2.1`.
    pub fn version_name(&self) -> (r: String)
        ensures
            r@ == "CRuby-"@ + version_text(self.version@),
    {
        let v = self.version.to_text();
        concat("CRuby-", v.as_str())
    }

    /// `<root>/bin`.
    pub fn bin_dir(&self) -> (r: String)
        ensures
            r@ == path_join(self.root@, "bin"@),
    {
        join(self.root.as_str(), "bin")
    }

    /// `<root>/bin/ruby<exe_suffix>`, with the platform's executable suffix
    /// (empty on Unix).
    pub fn ruby_executable_path(&self, exe_suffix: &str) -> (r: String)
        ensures
            r@ == path_join(path_join(self.root@, "bin"@), "ruby"@ + exe_suffix@),
    {
        let bin = self.bin_dir();
        let exe = concat("ruby", exe_suffix);
        join(bin.as_str(), exe.as_str())
    }

    /// `<root>/lib/ruby/gems/<major.minor.0>`: RubyGems uses the ABI
    /// directory.
    pub fn lib_dir(&self) -> (r: String)
        ensures
            r@ == lib_dir_of(self@),
    {
        let lib = join(self.root.as_str(), "lib");
        let ruby = join(lib.as_str(), "ruby");
        let gems = join(ruby.as_str(), "gems");
        let abi = self.version.ruby_abi_version();
        join(gems.as_str(), abi.as_str())
    }

    /// The user gem runtime of this Ruby for a home directory:
    /// `<home>/.gem/ruby/<major.minor.patch>`, or the error message when the
    /// home directory is unknown.
    pub fn gem_runtime_in_home(&self, home: Option<&str>) -> (r: Result<GemRuntime, String>)
        ensures
            match home {
                Some(h) => r matches Ok(g) && g@ == gem_runtime_for(
                    path_join(h@, ".gem"@),
                    self.version@,
                ),
                None => r matches Err(m) && m@ == "Could not determine home directory"@,
            },
    {
        match home {
            Some(h) => {
                let base = join(h, ".gem");
                Ok(GemRuntime::for_base_dir(base.as_str(), &self.version))
            },
            None => Err(owned("Could not determine home directory")),
        }
    }

    /// The user gem runtime of this Ruby, `~/.gem/ruby/<major.minor.patch>`,
    /// for the home directory that `home::home_dir` reports.
    pub fn infer_gem_runtime(&self) -> (r: Result<GemRuntime, String>)
        ensures
            r matches Err(m) ==> m@ == "Could not determine home directory"@,
            r matches Ok(g) ==> exists|h: Seq<char>|
                g@ == gem_runtime_for(#[trigger] path_join(h, ".gem"@), self.version@),
    {
        let home = crate::user::home_dir();
        match home {
            Some(h) => {
                self.gem_runtime_in_home(Some(h.as_str()))
            },
            None => self.gem_runtime_in_home(None),
        }
    }

    /// The gem runtime for this Ruby under a custom gem base directory.
    pub fn gem_runtime_for_base(&self, gem_base: &str) -> (r: GemRuntime)
        ensures
            r@ == gem_runtime_for(gem_base@, self.version@),
    {
        GemRuntime::for_base_dir(gem_base, &self.version)
    }
}

/// The user gem runtime of a Ruby for a known home directory lies under
/// `<home>/.gem/ruby`, in the directory named by the Ruby's full version,
/// with its executables in the gem home's `bin`.
pub proof fn law_user_gems_lie_in_home(home: Seq<char>, version: VersionParts)
    ensures
        home.is_prefix_of(gem_runtime_for(path_join(home, ".gem"@), version).0),
        path_join(path_join(home, ".gem"@), "ruby"@).is_prefix_of(
            gem_runtime_for(path_join(home, ".gem"@), version).0,
        ),
        full_version_dir(version.0, version.1, version.2).is_suffix_of(
            gem_runtime_for(path_join(home, ".gem"@), version).0,
        ),
        gem_runtime_for(path_join(home, ".gem"@), version).1 == path_join(
            gem_runtime_for(path_join(home, ".gem"@), version).0,
            "bin"@,
        ),
{
    reveal_strlit(".gem");
    let base = path_join(home, ".gem"@);
    law_join_extends(home, ".gem"@);
    law_gem_runtime_lies_under_base(base, version);
    let g = gem_runtime_for(base, version).0;
    assert(g.subrange(0, home.len() as int) =~= g.subrange(0, base.len() as int).subrange(0, home.len() as int));
}

} // verus!
