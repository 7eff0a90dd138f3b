//! What each kind of runtime contributes to an environment.
use vstd::prelude::*;
use crate::butler::{ButlerError, ErrorView};
use crate::gem_paths::{
    bundler_gem_path_detector, standard_gem_path_detector, CompositeGemPathDetector,
    GemPathDetector,
};
use crate::gems::GemRuntime;
use crate::path::{join, law_join_extends, path_join};
use crate::ruby::{lib_dir_of, RubyRuntime};
use crate::text::owned;
use crate::version_detector::{CompositeDetector, RubyVersionDetector};

verus! {

/// A runtime's contribution to an environment: its executables' directory,
/// its gem directory, and the detectors it reads versions and gem paths
/// with.
pub trait RuntimeProvider {
    /// Whether [`RuntimeProvider::bin_dir_view`] tells what `bin_dir`
    /// gives: so for the runtimes of this library, not for others unless
    /// they say so.
    open spec fn obeys_bin_dir_view(&self) -> bool {
        false
    }

    /// The directory of executables this runtime contributes, as text.
    open spec fn bin_dir_view(&self) -> Option<Seq<char>> {
        None
    }

    /// The directory of executables, if the runtime has one (see
    /// [`RuntimeProvider::bin_dir_view`]).
    fn bin_dir(&self) -> (r: Option<String>)
        ensures
            self.obeys_bin_dir_view() ==> match r {
                Some(d) => self.bin_dir_view() == Some(d@),
                None => self.bin_dir_view() is None,
            },
    ;

    /// The gem directory, if the runtime has one.
    fn gem_dir(&self) -> (r: Option<String>);

    /// The version detectors of this kind of runtime: by default
    /// `.ruby-version` first, then the Gemfile.
    fn compose_version_detector(&self) -> (r: CompositeDetector)
        default_ensures
            r.detectors@ == seq![RubyVersionDetector::RubyVersionFile, RubyVersionDetector::Gemfile],
    {
        CompositeDetector::standard()
    }

    /// The gem path detectors of this kind of runtime: by default the
    /// custom gem base, then the user's gems.
    fn compose_gem_path_detector(&self) -> (r: CompositeGemPathDetector)
        default_ensures
            r.detectors@ == seq![GemPathDetector::CustomGemBase, GemPathDetector::UserGems],
    {
        standard_gem_path_detector()
    }
}

impl RuntimeProvider for RubyRuntime {
    open spec fn obeys_bin_dir_view(&self) -> bool {
        true
    }

    /// `<root>/bin`.
    open spec fn bin_dir_view(&self) -> Option<Seq<char>> {
        Some(path_join(self.root@, "bin"@))
    }

    /// The Ruby's `bin` directory, `<root>/bin`.
    fn bin_dir(&self) -> (r: Option<String>) {
        Some(RubyRuntime::bin_dir(self))
    }

    fn gem_dir(&self) -> (r: Option<String>)
        ensures
            r matches Some(d) && d@ == lib_dir_of(self@),
    {
        Some(self.lib_dir())
    }
}

impl RuntimeProvider for GemRuntime {
    open spec fn obeys_bin_dir_view(&self) -> bool {
        true
    }

    /// The gem binary directory.
    open spec fn bin_dir_view(&self) -> Option<Seq<char>> {
        Some(self.gem_bin@)
    }

    fn bin_dir(&self) -> (r: Option<String>)
        ensures
            r matches Some(d) && d@ == self.gem_bin@,
    {
        Some(self.gem_bin.clone())
    }

    fn gem_dir(&self) -> (r: Option<String>)
        ensures
            r matches Some(d) && d@ == self.gem_home@,
    {
        Some(self.gem_home.clone())
    }
}

impl RuntimeProvider for crate::project::ProjectRuntime {
    open spec fn obeys_bin_dir_view(&self) -> bool {
        true
    }

    /// None.
    open spec fn bin_dir_view(&self) -> Option<Seq<char>> {
        None
    }

    /// A project adds no directory of executables.
    fn bin_dir(&self) -> (r: Option<String>)
        ensures
            r is None,
    {
        None
    }

    /// A project adds no gem directory.
    fn gem_dir(&self) -> (r: Option<String>)
        ensures
            r is None,
    {
        None
    }

    /// A project's gem path detectors: the custom gem base, Bundler
    /// isolation, then the user's gems.
    fn compose_gem_path_detector(&self) -> (r: CompositeGemPathDetector)
        ensures
            r.detectors@ == seq![
                GemPathDetector::CustomGemBase,
                GemPathDetector::BundlerIsolation,
                GemPathDetector::UserGems,
            ],
    {
        let mut v: Vec<GemPathDetector> = Vec::new();
        v.push(GemPathDetector::CustomGemBase);
        v.push(GemPathDetector::BundlerIsolation);
        v.push(GemPathDetector::UserGems);
        proof {
            assert(v@ =~= seq![
                GemPathDetector::CustomGemBase,
                GemPathDetector::BundlerIsolation,
                GemPathDetector::UserGems,
            ]);
        }
        CompositeGemPathDetector::new(v)
    }
}

/// A provider of environment variables and extra `PATH` entries.
pub trait EnvProvider {
    /// The variables to set, as `(name, value)` pairs, given the current
    /// `PATH`.
    fn env_vars(&self, current_path: Option<String>) -> Vec<(String, String)>;

    /// Additional `PATH` entries.
    fn extra_path(&self) -> Vec<String>;
}

/// The detector chains used while an environment is being discovered.
pub struct DetectorComposer;

impl DetectorComposer {
    /// The version detectors of a Bundler environment: `.ruby-version`, then
    /// the Gemfile.
    pub fn version_detector_for_bundler() -> (r: CompositeDetector)
        ensures
            r.detectors@ == seq![RubyVersionDetector::RubyVersionFile, RubyVersionDetector::Gemfile],
    {
        CompositeDetector::standard()
    }

    /// The gem path detectors of a Bundler environment: the custom gem base,
    /// then Bundler isolation; never the user's gems.
    pub fn gem_path_detector_for_bundler() -> (r: CompositeGemPathDetector)
        ensures
            r.detectors@ == seq![GemPathDetector::CustomGemBase, GemPathDetector::BundlerIsolation],
    {
        bundler_gem_path_detector()
    }

    /// The gem path detectors outside Bundler: the custom gem base, then the
    /// user's gems.
    pub fn gem_path_detector_standard() -> (r: CompositeGemPathDetector)
        ensures
            r.detectors@ == seq![GemPathDetector::CustomGemBase, GemPathDetector::UserGems],
    {
        standard_gem_path_detector()
    }
}

/// The rubies directory `<home>/.rubies` of a home directory, or the error
/// when the home directory is unknown.
pub fn rubies_dir_in_home(home: Option<&str>) -> (r: Result<String, ButlerError>)
    ensures
        match home {
            Some(h) => r matches Ok(d) && d@ == path_join(h@, ".rubies"@),
            None => r matches Err(e) && e@ == ErrorView::General(
                "Could not determine home directory"@,
            ),
        },
{
    match home {
        Some(h) => Ok(join(h, ".rubies")),
        None => Err(ButlerError::General(owned("Could not determine home directory"))),
    }
}

/// The rubies directory of a known home directory lies directly in it: it
/// begins with the home directory and ends with `.rubies`.
pub proof fn law_rubies_dir_lies_in_home(home: Seq<char>)
    ensures
        home.is_prefix_of(path_join(home, ".rubies"@)),
        ".rubies"@.is_suffix_of(path_join(home, ".rubies"@)),
{
    reveal_strlit(".rubies");
    law_join_extends(home, ".rubies"@);
}

/// The default rubies directory, `~/.rubies`, for the home directory that
/// `home::home_dir` reports.
pub fn default_rubies_dir() -> (r: Result<String, ButlerError>)
    ensures
        r matches Err(e) ==> e@ == ErrorView::General("Could not determine home directory"@),
        r matches Ok(d) ==> exists|h: Seq<char>| d@ == #[trigger] path_join(h, ".rubies"@),
{
    match crate::user::home_dir() {
        Some(h) => rubies_dir_in_home(Some(h.as_str())),
        None => rubies_dir_in_home(None),
    }
}

/// The directory searched for Ruby installations: the one given, or else the
/// default `~/.rubies`.
pub fn resolve_search_dir(rubies_dir: Option<String>) -> (r: Result<String, ButlerError>)
    ensures
        rubies_dir matches Some(d) ==> r matches Ok(x) && x@ == d@,
        rubies_dir is None ==> (r matches Err(e) ==> e@ == ErrorView::General(
            "Could not determine home directory"@,
        )),
        rubies_dir is None ==> (r matches Ok(x) ==> exists|h: Seq<char>|
            x@ == #[trigger] path_join(h, ".rubies"@)),
{
    match rubies_dir {
        Some(d) => Ok(d),
        None => default_rubies_dir(),
    }
}

} // verus!
