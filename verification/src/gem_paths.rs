//! Which gem directories an environment uses.
//!
//! Detectors are tried in priority order; the first that applies decides the
//! gem directories and their binary directories. A custom gem base (the `-G`
//! option) wins; in a Bundler project the bundle isolates its gems, so no gem
//! path is set; otherwise the user's gems under `~/.gem` are used, beside the
//! Ruby's own gems.
use vstd::prelude::*;
use crate::gems::{gem_runtime_for, GemRuntime};
use crate::path::{join, path_join};
use crate::ruby::{law_user_gems_lie_in_home, lib_dir_of, RubyRuntime, RuntimeParts};
use crate::text::owned;
use crate::version::VersionParts;

verus! {

/// The texts of a sequence of strings.
pub open spec fn texts(v: Seq<String>) -> Seq<Seq<char>> {
    v.map_values(|s: String| s@)
}

/// A detected gem path configuration: the directories for `GEM_PATH` (the
/// first one is `GEM_HOME`) and the directories of their executables.
#[derive(Debug, Clone, PartialEq, Eq)]
pub struct GemPathConfig {
    pub gem_dirs: Vec<String>,
    pub gem_bin_dirs: Vec<String>,
}

/// A gem path configuration as plain values.
pub type GemPathParts = (Seq<Seq<char>>, Seq<Seq<char>>);

impl View for GemPathConfig {
    type V = GemPathParts;

    open spec fn view(&self) -> GemPathParts {
        (texts(self.gem_dirs@), texts(self.gem_bin_dirs@))
    }
}

/// Copies a vector of strings.
pub fn copy_strings(v: &Vec<String>) -> (r: Vec<String>)
    ensures
        texts(r@) == texts(v@),
{
    let mut out: Vec<String> = Vec::new();
    let mut i: usize = 0;
    while i < v.len()
        invariant
            i <= v@.len(),
            texts(out@) == texts(v@.subrange(0, i as int)),
        decreases v.len() - i,
    {
        out.push(v[i].clone());
        proof {
            assert(texts(v@.subrange(0, i + 1)) =~= texts(v@.subrange(0, i as int)).push(v@[i as int]@));
        }
        i = i + 1;
    }
    proof {
        assert(v@.subrange(0, v@.len() as int) =~= v@);
    }
    out
}

impl GemPathConfig {
    /// A configuration of the given directories.
    pub fn new(gem_dirs: Vec<String>, gem_bin_dirs: Vec<String>) -> (r: GemPathConfig)
        ensures
            r.gem_dirs@ == gem_dirs@,
            r.gem_bin_dirs@ == gem_bin_dirs@,
    {
        GemPathConfig { gem_dirs, gem_bin_dirs }
    }

    /// The gem directories.
    pub fn gem_dirs(&self) -> (r: &[String])
        ensures
            r@ == self.gem_dirs@,
    {
        self.gem_dirs.as_slice()
    }

    /// The directories of the gems' executables.
    pub fn gem_bin_dirs(&self) -> (r: &[String])
        ensures
            r@ == self.gem_bin_dirs@,
    {
        self.gem_bin_dirs.as_slice()
    }

    /// The primary gem home: the first gem directory.
    pub fn gem_home(&self) -> (r: Option<String>)
        ensures
            self.gem_dirs@.len() == 0 ==> r is None,
            self.gem_dirs@.len() > 0 ==> (r matches Some(h) && h@ == self.gem_dirs@[0]@),
    {
        if self.gem_dirs.len() == 0 {
            None
        } else {
            Some(self.gem_dirs[0].clone())
        }
    }

    /// A copy of this configuration.
    pub fn duplicate(&self) -> (r: GemPathConfig)
        ensures
            r@ == self@,
    {
        GemPathConfig {
            gem_dirs: copy_strings(&self.gem_dirs),
            gem_bin_dirs: copy_strings(&self.gem_bin_dirs),
        }
    }
}

/// What gem path detection looks at: the working directory, the Ruby in use,
/// the custom gem base if one was given, and the user's home directory.
#[derive(Debug, Clone)]
pub struct GemPathContext {
    pub current_dir: String,
    pub ruby_runtime: RubyRuntime,
    pub custom_gem_base: Option<String>,
    pub home_dir: Option<String>,
}

/// A detection context as plain values.
pub type ContextParts = (Seq<char>, RuntimeParts, Option<Seq<char>>, Option<Seq<char>>);

/// The text of an optional string.
pub open spec fn opt_text(o: Option<String>) -> Option<Seq<char>> {
    match o {
        Some(s) => Some(s@),
        None => None,
    }
}

impl View for GemPathContext {
    type V = ContextParts;

    open spec fn view(&self) -> ContextParts {
        (self.current_dir@, self.ruby_runtime@, opt_text(self.custom_gem_base), opt_text(self.home_dir))
    }
}

/// An owned copy of an optional string slice.
pub fn opt_owned(o: Option<&str>) -> (r: Option<String>)
    ensures
        match o {
            Some(s) => r matches Some(t) && t@ == s@,
            None => r is None,
        },
{
    match o {
        Some(s) => Some(owned(s)),
        None => None,
    }
}

impl GemPathContext {
    /// A context with the given home directory.
    pub fn with_home_dir(
        current_dir: &str,
        ruby_runtime: &RubyRuntime,
        custom_gem_base: Option<&str>,
        home_dir: Option<&str>,
    ) -> (r: GemPathContext)
        ensures
            r.current_dir@ == current_dir@,
            r.ruby_runtime@ == ruby_runtime@,
            opt_text(r.custom_gem_base) == (match custom_gem_base {
                Some(s) => Some(s@),
                None => None::<Seq<char>>,
            }),
            opt_text(r.home_dir) == (match home_dir {
                Some(s) => Some(s@),
                None => None::<Seq<char>>,
            }),
    {
        GemPathContext {
            current_dir: owned(current_dir),
            ruby_runtime: ruby_runtime.duplicate(),
            custom_gem_base: opt_owned(custom_gem_base),
            home_dir: opt_owned(home_dir),
        }
    }

    /// A context for the home directory that `home::home_dir` reports.
    pub fn new(current_dir: &str, ruby_runtime: &RubyRuntime, custom_gem_base: Option<&str>) -> (r:
        GemPathContext)
        ensures
            r.current_dir@ == current_dir@,
            r.ruby_runtime@ == ruby_runtime@,
            opt_text(r.custom_gem_base) == (match custom_gem_base {
                Some(s) => Some(s@),
                None => None::<Seq<char>>,
            }),
    {
        let home = crate::user::home_dir();
        match home {
            Some(h) => Self::with_home_dir(current_dir, ruby_runtime, custom_gem_base, Some(h.as_str())),
            None => Self::with_home_dir(current_dir, ruby_runtime, custom_gem_base, None),
        }
    }
}

/// The configuration of a single gem runtime.
pub open spec fn single_runtime_config(g: (Seq<char>, Seq<char>)) -> GemPathParts {
    (seq![g.0], seq![g.1])
}

/// What the custom gem base detector gives: the gem runtime under the
/// custom base, if one was given.
pub open spec fn custom_base_config(ctx: ContextParts) -> Option<GemPathParts> {
    match ctx.2 {
        Some(base) => Some(single_runtime_config(gem_runtime_for(base, ctx.1.1))),
        None => None,
    }
}

/// What the user gems detector gives, if the home directory is known: the
/// user's gem home under `~/.gem`, then the Ruby's own lib gems directory;
/// as executable directories, the user's gem bin directory, listed for both
/// (the Ruby's own executables come from its runtime, not from here).
pub open spec fn user_gems_config(ctx: ContextParts) -> Option<GemPathParts> {
    match ctx.3 {
        Some(home) => {
            let g = gem_runtime_for(path_join(home, ".gem"@), ctx.1.1);
            Some((seq![g.0, lib_dir_of(ctx.1)], seq![g.1, g.1]))
        },
        None => None,
    }
}

/// With the home directory known, the user gems detector applies: its gem
/// directories are the user's gem home, inside the home directory, then the
/// Ruby's own lib gems directory, and its executable directory is the gem
/// home's `bin`. Without a home directory it does not apply.
pub proof fn law_user_gems_follow_home(ctx: ContextParts)
    ensures
        ctx.3 is None ==> user_gems_config(ctx) is None,
        ctx.3 matches Some(h) ==> (user_gems_config(ctx) matches Some(c) && (c.0.len() == 2 && h.is_prefix_of(c.0[0])
            && c.0[1] == lib_dir_of(ctx.1) && c.1 == seq![path_join(c.0[0], "bin"@), path_join(c.0[0], "bin"@)])),
{
    if let Some(h) = ctx.3 {
        law_user_gems_lie_in_home(h, ctx.1.1);
    }
}

/// The empty configuration of Bundler isolation.
pub open spec fn isolation_config() -> GemPathParts {
    (Seq::empty(), Seq::empty())
}

/// Uses the custom gem base directory (the `-G` option) when one was given.
pub struct CustomGemBaseDetector;

impl CustomGemBaseDetector {
    /// The gem runtime under the custom base, if one was given.
    pub fn detect(&self, context: &GemPathContext) -> (r: Option<GemPathConfig>)
        ensures
            match r {
                Some(c) => custom_base_config(context@) == Some(c@),
                None => custom_base_config(context@) is None,
            },
    {
        match &context.custom_gem_base {
            Some(base) => {
                let g = GemRuntime::for_base_dir(base.as_str(), &context.ruby_runtime.version);
                let mut dirs: Vec<String> = Vec::new();
                dirs.push(g.gem_home);
                let mut bins: Vec<String> = Vec::new();
                bins.push(g.gem_bin);
                let c = GemPathConfig::new(dirs, bins);
                proof {
                    assert(c@.0 =~= seq![g@.0]);
                    assert(c@.1 =~= seq![g@.1]);
                }
                Some(c)
            },
            None => None,
        }
    }

    /// The detector's name.
    pub fn name(&self) -> (r: &'static str)
        ensures
            r@ == "custom-gem-base"@,
    {
        "custom-gem-base"
    }
}

/// In a Bundler project: no gem path at all, Bundler isolates the bundle.
pub struct BundlerIsolationDetector;

impl BundlerIsolationDetector {
    /// Always the empty configuration.
    pub fn detect(&self, context: &GemPathContext) -> (r: Option<GemPathConfig>)
        ensures
            r matches Some(c) && c@ == isolation_config(),
    {
        let c = GemPathConfig::new(Vec::new(), Vec::new());
        proof {
            assert(c@.0 =~= Seq::<Seq<char>>::empty());
            assert(c@.1 =~= Seq::<Seq<char>>::empty());
        }
        Some(c)
    }

    /// The detector's name.
    pub fn name(&self) -> (r: &'static str)
        ensures
            r@ == "bundler-isolation"@,
    {
        "bundler-isolation"
    }
}

/// The user's gems under `~/.gem/ruby/<version>`.
pub struct UserGemsDetector;

impl UserGemsDetector {
    /// The user's gem directories, if the home directory is known.
    pub fn detect(&self, context: &GemPathContext) -> (r: Option<GemPathConfig>)
        ensures
            match r {
                Some(c) => user_gems_config(context@) == Some(c@),
                None => user_gems_config(context@) is None,
            },
    {
        let home = match &context.home_dir {
            Some(h) => h,
            None => {
                return None;
            },
        };
        let base = join(home.as_str(), ".gem");
        let user_gems = GemRuntime::for_base_dir(base.as_str(), &context.ruby_runtime.version);
        let mut dirs: Vec<String> = Vec::new();
        dirs.push(user_gems.gem_home);
        dirs.push(context.ruby_runtime.lib_dir());
        let mut bins: Vec<String> = Vec::new();
        bins.push(user_gems.gem_bin.clone());
        bins.push(user_gems.gem_bin);
        let c = GemPathConfig::new(dirs, bins);
        proof {
            let g = gem_runtime_for(path_join(home@, ".gem"@), context.ruby_runtime.version@);
            assert(c@.0 =~= seq![g.0, lib_dir_of(context.ruby_runtime@)]);
            assert(c@.1 =~= seq![g.1, g.1]);
        }
        Some(c)
    }

    /// The detector's name.
    pub fn name(&self) -> (r: &'static str)
        ensures
            r@ == "user-gems"@,
    {
        "user-gems"
    }
}

/// A gem path detection strategy.
#[derive(Debug, Clone, Copy, PartialEq, Eq, Structural)]
pub enum GemPathDetector {
    CustomGemBase,
    BundlerIsolation,
    UserGems,
}

/// What a detector gives in a context.
pub open spec fn detected_config(d: GemPathDetector, ctx: ContextParts) -> Option<GemPathParts> {
    match d {
        GemPathDetector::CustomGemBase => custom_base_config(ctx),
        GemPathDetector::BundlerIsolation => Some(isolation_config()),
        GemPathDetector::UserGems => user_gems_config(ctx),
    }
}

/// What the first detector of `ds` that applies gives.
pub open spec fn first_config(ds: Seq<GemPathDetector>, ctx: ContextParts) -> Option<GemPathParts>
    decreases ds.len(),
{
    if ds.len() == 0 {
        None
    } else {
        match detected_config(ds[0], ctx) {
            Some(c) => Some(c),
            None => first_config(ds.drop_first(), ctx),
        }
    }
}

/// What a chain of detectors gives: the first that applies, else the user
/// gems.
pub open spec fn chain_config(ds: Seq<GemPathDetector>, ctx: ContextParts) -> Option<GemPathParts> {
    match first_config(ds, ctx) {
        Some(c) => Some(c),
        None => user_gems_config(ctx),
    }
}

impl GemPathDetector {
    /// What this detector gives in the context.
    pub fn detect(&self, context: &GemPathContext) -> (r: Option<GemPathConfig>)
        ensures
            match r {
                Some(c) => detected_config(*self, context@) == Some(c@),
                None => detected_config(*self, context@) is None,
            },
    {
        match self {
            GemPathDetector::CustomGemBase => CustomGemBaseDetector.detect(context),
            GemPathDetector::BundlerIsolation => BundlerIsolationDetector.detect(context),
            GemPathDetector::UserGems => UserGemsDetector.detect(context),
        }
    }

    /// The detector's name.
    pub fn name(&self) -> (r: &'static str)
        ensures
            *self == GemPathDetector::CustomGemBase ==> r@ == "custom-gem-base"@,
            *self == GemPathDetector::BundlerIsolation ==> r@ == "bundler-isolation"@,
            *self == GemPathDetector::UserGems ==> r@ == "user-gems"@,
    {
        match self {
            GemPathDetector::CustomGemBase => CustomGemBaseDetector.name(),
            GemPathDetector::BundlerIsolation => BundlerIsolationDetector.name(),
            GemPathDetector::UserGems => UserGemsDetector.name(),
        }
    }
}

/// Gem path detectors tried in priority order.
#[derive(Debug, Clone)]
pub struct CompositeGemPathDetector {
    pub detectors: Vec<GemPathDetector>,
}

impl CompositeGemPathDetector {
    /// A chain of the given detectors, in priority order.
    pub fn new(detectors: Vec<GemPathDetector>) -> (r: CompositeGemPathDetector)
        ensures
            r.detectors@ == detectors@,
    {
        CompositeGemPathDetector { detectors }
    }

    /// The configuration of the first detector that applies; when none
    /// applies, the user gems. (When the user gems do not apply either, the
    /// home directory is unknown and there is nothing to fall back on: that
    /// case is excluded.)
    pub fn detect(&self, context: &GemPathContext) -> (r: GemPathConfig)
        requires
            chain_config(self.detectors@, context@) is Some,
        ensures
            chain_config(self.detectors@, context@) == Some(r@),
    {
        let mut i: usize = 0;
        proof {
            assert(self.detectors@.subrange(0, self.detectors@.len() as int) =~= self.detectors@);
        }
        while i < self.detectors.len()
            invariant
                i <= self.detectors@.len(),
                first_config(self.detectors@, context@) == first_config(
                    self.detectors@.subrange(i as int, self.detectors@.len() as int),
                    context@,
                ),
            decreases self.detectors.len() - i,
        {
            proof {
                let ds = self.detectors@;
                let rest = ds.subrange(i as int, ds.len() as int);
                assert(rest[0] == ds[i as int]);
                assert(rest.drop_first() =~= ds.subrange(i + 1, ds.len() as int));
            }
            match self.detectors[i].detect(context) {
                Some(c) => {
                    return c;
                },
                None => {},
            }
            i = i + 1;
        }
        proof {
            assert(self.detectors@.subrange(i as int, self.detectors@.len() as int) =~= Seq::<
                GemPathDetector,
            >::empty());
        }
        match UserGemsDetector.detect(context) {
            Some(c) => c,
            None => {
                proof {
                    assert(false);
                }
                GemPathConfig::new(Vec::new(), Vec::new())
            },
        }
    }

    /// Appends a detector to the chain.
    pub fn add_detector(&mut self, detector: GemPathDetector)
        ensures
            final(self).detectors@ == old(self).detectors@.push(detector),
    {
        self.detectors.push(detector);
    }
}

/// Builds a chain from a list of detectors.
fn chain_of(a: GemPathDetector, b: GemPathDetector) -> (r: CompositeGemPathDetector)
    ensures
        r.detectors@ == seq![a, b],
{
    let mut v: Vec<GemPathDetector> = Vec::new();
    v.push(a);
    v.push(b);
    proof {
        assert(v@ =~= seq![a, b]);
    }
    CompositeGemPathDetector { detectors: v }
}

/// The chain of a plain gem environment: custom base, then user gems.
pub fn standard_gem_path_detector() -> (r: CompositeGemPathDetector)
    ensures
        r.detectors@ == seq![GemPathDetector::CustomGemBase, GemPathDetector::UserGems],
{
    chain_of(GemPathDetector::CustomGemBase, GemPathDetector::UserGems)
}

/// The chain of a Bundler environment: custom base, then Bundler isolation
/// (never the user gems).
pub fn bundler_gem_path_detector() -> (r: CompositeGemPathDetector)
    ensures
        r.detectors@ == seq![GemPathDetector::CustomGemBase, GemPathDetector::BundlerIsolation],
{
    chain_of(GemPathDetector::CustomGemBase, GemPathDetector::BundlerIsolation)
}

} // verus!
