//! The Butler runtime: which Ruby an environment uses, and the directories
//! and variables that make up that environment.
use vstd::prelude::*;
use crate::bundler::{ruby_vendor_dir_of, BundlerRuntime};
use crate::discovery::{
    accepted, first_failure, last_max_index, latest_first, runtime_views, versions_of,
    DirListing, RubyDiscoveryError, RubyRuntimeDetector,
};
use crate::gem_paths::{
    bundler_gem_path_detector, chain_config, standard_gem_path_detector, GemPathContext,
    GemPathDetector, GemPathParts,
};
use crate::gems::{gem_runtime_for, GemRuntime};
use crate::path::{join, parent, path_join, path_parent};
use crate::ruby::{lib_dir_of, RubyRuntime, RuntimeParts};
use crate::text::{concat, contains_string, join_strings, joined, owned, views_of};
use crate::version::{is_release, newest_among, opt_parts, semver_parse, triple_lt, RubyVersion, VersionParts};
use crate::version_detector::{first_detected, CompositeDetector, RubyVersionDetector, VersionSources};

verus! {

broadcast use vstd::seq_lib::group_to_multiset_ensures;

/// Errors of the Butler runtime.
#[derive(Debug, Clone, PartialEq, Eq)]
pub enum ButlerError {
    /// The rubies directory does not exist.
    RubiesDirectoryNotFound(String),
    /// No suitable Ruby installation was found.
    NoSuitableRuby(String),
    /// The command was not found in the environment.
    CommandNotFound(String),
    /// Any other error, with its message.
    General(String),
}

/// A Butler error as plain values.
pub enum ErrorView {
    RubiesDirectoryNotFound(Seq<char>),
    NoSuitableRuby(Seq<char>),
    CommandNotFound(Seq<char>),
    General(Seq<char>),
}

impl View for ButlerError {
    type V = ErrorView;

    open spec fn view(&self) -> ErrorView {
        match self {
            ButlerError::RubiesDirectoryNotFound(p) => ErrorView::RubiesDirectoryNotFound(p@),
            ButlerError::NoSuitableRuby(m) => ErrorView::NoSuitableRuby(m@),
            ButlerError::CommandNotFound(c) => ErrorView::CommandNotFound(c@),
            ButlerError::General(m) => ErrorView::General(m@),
        }
    }
}

/// How a Butler error is displayed.
pub open spec fn error_message(e: ErrorView) -> Seq<char> {
    match e {
        ErrorView::RubiesDirectoryNotFound(p) => "Directory not found: "@ + p
            + ". No Rubies were detected and there's nothing Butler can help with. Please install Ruby using ruby-install or similar tool to the expected path."@,
        ErrorView::NoSuitableRuby(m) => "No suitable Ruby installation found: "@ + m,
        ErrorView::CommandNotFound(c) => "Command not found: "@ + c
            + ". The specified command is not available in the current environment."@,
        ErrorView::General(m) => m,
    }
}

impl ButlerError {
    /// The error's message, as it is displayed.
    pub fn message(&self) -> (r: String)
        ensures
            r@ == error_message(self@),
    {
        match self {
            ButlerError::RubiesDirectoryNotFound(p) => {
                let a = concat("Directory not found: ", p.as_str());
                concat(
                    a.as_str(),
                    ". No Rubies were detected and there's nothing Butler can help with. Please install Ruby using ruby-install or similar tool to the expected path.",
                )
            },
            ButlerError::NoSuitableRuby(m) => concat(
                "No suitable Ruby installation found: ",
                m.as_str(),
            ),
            ButlerError::CommandNotFound(c) => {
                let a = concat("Command not found: ", c.as_str());
                concat(
                    a.as_str(),
                    ". The specified command is not available in the current environment.",
                )
            },
            ButlerError::General(m) => m.clone(),
        }
    }
}

/// The first installation of `s` whose version is exactly `v`.
pub open spec fn first_with_version(s: Seq<RuntimeParts>, v: VersionParts) -> Option<RuntimeParts>
    decreases s.len(),
{
    if s.len() == 0 {
        None
    } else if s[0].1 == v {
        Some(s[0])
    } else {
        first_with_version(s.drop_first(), v)
    }
}

/// The latest installation of `s` (the last of several equal ones).
pub open spec fn latest_of(s: Seq<RuntimeParts>) -> Option<RuntimeParts> {
    if s.len() == 0 {
        None
    } else {
        Some(s[last_max_index(versions_of(s))])
    }
}

/// Which Ruby is used: an explicitly requested version must be installed
/// exactly (an unreadable request selects nothing); else the version the
/// project requires, when it is installed; else the latest installation.
pub open spec fn select_spec(
    s: Seq<RuntimeParts>,
    requested: Option<Seq<char>>,
    required: Option<VersionParts>,
) -> Option<RuntimeParts> {
    if s.len() == 0 {
        None
    } else {
        match requested {
            Some(t) => match semver_parse(t) {
                Some(v) => first_with_version(s, v),
                None => None,
            },
            None => match required {
                Some(v) => match first_with_version(s, v) {
                    Some(r) => Some(r),
                    None => latest_of(s),
                },
                None => latest_of(s),
            },
        }
    }
}

/// The views of an optional installation.
pub open spec fn opt_runtime(o: Option<RubyRuntime>) -> Option<RuntimeParts> {
    match o {
        Some(r) => Some(r@),
        None => None,
    }
}

/// The text of an optional string.
pub open spec fn opt_str(o: Option<String>) -> Option<Seq<char>> {
    match o {
        Some(s) => Some(s@),
        None => None,
    }
}

/// The text of an optional string slice.
pub open spec fn opt_slice(o: Option<&str>) -> Option<Seq<char>> {
    match o {
        Some(s) => Some(s@),
        None => None,
    }
}

/// Index of the first installation with version `v`, or `list.len()`.
fn position_of_version(list: &[RubyRuntime], v: &RubyVersion) -> (k: usize)
    ensures
        k <= list@.len(),
        first_with_version(runtime_views(list@), v@) == (if k < list@.len() {
            Some(list@[k as int]@)
        } else {
            None
        }),
{
    let ghost s = runtime_views(list@);
    let mut k: usize = 0;
    proof {
        assert(s.subrange(0, s.len() as int) =~= s);
    }
    while k < list.len()
        invariant
            k <= list@.len(),
            s == runtime_views(list@),
            first_with_version(s, v@) == first_with_version(s.subrange(k as int, s.len() as int), v@),
        decreases list.len() - k,
    {
        proof {
            let rest = s.subrange(k as int, s.len() as int);
            assert(rest[0] == s[k as int]);
            assert(rest.drop_first() =~= s.subrange(k + 1, s.len() as int));
        }
        if list[k].version.same_as(v) {
            return k;
        }
        k = k + 1;
    }
    proof {
        assert(s.subrange(k as int, s.len() as int) =~= Seq::<RuntimeParts>::empty());
    }
    k
}

/// Selects the Ruby to use among `rubies` (see [`select_spec`]).
pub fn select_ruby_runtime(
    rubies: &[RubyRuntime],
    requested_version: Option<&str>,
    required_version: Option<&RubyVersion>,
) -> (r: Option<RubyRuntime>)
    ensures
        opt_runtime(r) == select_spec(
            runtime_views(rubies@),
            opt_slice(requested_version),
            opt_parts(match required_version {
                Some(v) => Some(*v),
                None => None,
            }),
        ),
        requested_version is None && rubies@.len() > 0 && (match required_version {
            Some(v) => !(exists|i: int| 0 <= i < rubies@.len() && #[trigger] rubies@[i].version@ == v@),
            None => true,
        }) ==> (r matches Some(x) && newest_among(x.version@, versions_of(runtime_views(rubies@)))),
{
    let ghost s = runtime_views(rubies@);
    if rubies.len() == 0 {
        return None;
    }
    match requested_version {
        Some(t) => {
            match RubyVersion::parse(t) {
                Some(v) => {
                    let k = position_of_version(rubies, &v);
                    if k < rubies.len() {
                        Some(rubies[k].duplicate())
                    } else {
                        None
                    }
                },
                None => None,
            }
        },
        None => {
            match required_version {
                Some(v) => {
                    let k = position_of_version(rubies, v);
                    if k < rubies.len() {
                        let found = rubies[k].duplicate();
                        proof {
                            lemma_first_with_version(s, v@);
                            assert(rubies@[k as int].version@ == v@);
                        }
                        return Some(found);
                    }
                },
                None => {},
            }
            let l = RubyRuntimeDetector::latest(rubies);
            proof {
                crate::discovery::lemma_last_max_in_range(versions_of(s));
                let k = last_max_index(versions_of(s));
                assert(s[k] == rubies@[k]@);
            }
            l
        },
    }
}

/// The first installation with a version is one with that version, and
/// there is one exactly when some installation has it.
pub proof fn lemma_first_with_version(s: Seq<RuntimeParts>, v: VersionParts)
    ensures
        first_with_version(s, v) matches Some(r) ==> r.1 == v && s.contains(r),
        first_with_version(s, v) is Some <==> exists|i: int| 0 <= i < s.len() && #[trigger] s[i].1 == v,
    decreases s.len(),
{
    if s.len() > 0 {
        lemma_first_with_version(s.drop_first(), v);
        if s[0].1 != v {
            if first_with_version(s, v) is Some {
                let r = first_with_version(s, v).unwrap();
                let k = choose|k: int| 0 <= k < s.drop_first().len() && s.drop_first()[k] == r;
                assert(s[k + 1] == r);
            }
            if exists|i: int| 0 <= i < s.len() && #[trigger] s[i].1 == v {
                let i = choose|i: int| 0 <= i < s.len() && #[trigger] s[i].1 == v;
                assert(s.drop_first()[i - 1].1 == v);
            }
            if exists|i: int| 0 <= i < s.drop_first().len() && #[trigger] s.drop_first()[i].1 == v {
                let i = choose|i: int|
                    0 <= i < s.drop_first().len() && #[trigger] s.drop_first()[i].1 == v;
                assert(s[i + 1].1 == v);
            }
        } else {
            assert(s.contains(s[0]));
        }
    }
}

/// An explicitly requested version is honoured exactly: a Ruby is selected
/// exactly when one with that very version is installed, and it is that one.
pub proof fn law_requested_version_is_exact(s: Seq<RuntimeParts>, t: Seq<char>, required: Option<VersionParts>)
    ensures
        select_spec(s, Some(t), required) is Some <==> (semver_parse(t) matches Some(v) && exists|
            i: int,
        | 0 <= i < s.len() && #[trigger] s[i].1 == v),
        select_spec(s, Some(t), required) matches Some(r) ==> (s.contains(r) && semver_parse(t)
            == Some(r.1)),
{
    if let Some(v) = semver_parse(t) {
        lemma_first_with_version(s, v);
    }
}

/// Without a request, a required version that is installed is always the
/// one selected.
pub proof fn law_installed_requirement_wins(s: Seq<RuntimeParts>, v: VersionParts)
    requires
        exists|i: int| 0 <= i < s.len() && #[trigger] s[i].1 == v,
    ensures
        select_spec(s, None, Some(v)) matches Some(r) && r.1 == v && s.contains(r),
{
    lemma_first_with_version(s, v);
}

/// Without a request or an installed requirement, among release versions the
/// latest installation is selected: nothing installed is newer, and it is the
/// last of several equal ones.
pub proof fn law_latest_by_default(s: Seq<RuntimeParts>, required: Option<VersionParts>)
    requires
        s.len() > 0,
        forall|i: int| 0 <= i < s.len() ==> is_release(#[trigger] s[i].1),
        required matches Some(v) ==> !(exists|i: int| 0 <= i < s.len() && #[trigger] s[i].1 == v),
    ensures
        select_spec(s, None, required) matches Some(r) && s.contains(r) && (forall|j: int|
            0 <= j < s.len() ==> !triple_lt(r.1, #[trigger] s[j].1)),
{
    let vs = versions_of(s);
    assert forall|i: int| 0 <= i < vs.len() implies is_release(#[trigger] vs[i]) by {
        assert(vs[i] == s[i].1);
    }
    crate::discovery::lemma_last_max_is_latest(vs);
    if let Some(v) = required {
        lemma_first_with_version(s, v);
    }
    let k = last_max_index(vs);
    assert(s.contains(s[k]));
    assert forall|j: int| 0 <= j < s.len() implies !triple_lt(s[k].1, #[trigger] s[j].1) by {
        assert(vs[j] == s[j].1);
        assert(vs[k] == s[k].1);
    }
}

/// The gem runtime of a gem path configuration: built, for the selected
/// Ruby, under the parent of the configuration's gem home (the gem home
/// itself when it has no parent).
pub open spec fn gem_runtime_of_config(c: GemPathParts, v: VersionParts) -> Option<(Seq<char>, Seq<char>)> {
    if c.0.len() == 0 {
        None
    } else {
        let home = c.0[0];
        let base = match path_parent(home) {
            Some(p) => p,
            None => home,
        };
        Some(gem_runtime_for(base, v))
    }
}

/// The Butler runtime: the selected Ruby, its gem and Bundler environments,
/// and the context they were discovered in.
#[derive(Debug, Clone)]
pub struct ButlerRuntime {
    pub ruby_runtime: Option<RubyRuntime>,
    pub gem_runtime: Option<GemRuntime>,
    pub bundler_runtime: Option<BundlerRuntime>,
    pub rubies_dir: String,
    pub current_dir: String,
    pub ruby_installations: Vec<RubyRuntime>,
    pub requested_ruby_version: Option<String>,
    pub gem_base_dir: Option<String>,
}

/// A Bundler project as plain values: its root and Ruby version.
pub type BundlerParts = (Seq<char>, VersionParts);

/// A Butler runtime as plain values.
pub struct ButlerView {
    pub ruby: Option<RuntimeParts>,
    pub gems: Option<(Seq<char>, Seq<char>)>,
    pub bundler: Option<BundlerParts>,
    pub rubies_dir: Seq<char>,
    pub current_dir: Seq<char>,
    pub installations: Seq<RuntimeParts>,
    pub requested: Option<Seq<char>>,
    pub gem_base_dir: Option<Seq<char>>,
}

impl View for ButlerRuntime {
    type V = ButlerView;

    open spec fn view(&self) -> ButlerView {
        ButlerView {
            ruby: opt_runtime(self.ruby_runtime),
            gems: match self.gem_runtime {
                Some(g) => Some(g@),
                None => None,
            },
            bundler: match self.bundler_runtime {
                Some(b) => Some((b.root@, b.ruby_version@)),
                None => None,
            },
            rubies_dir: self.rubies_dir@,
            current_dir: self.current_dir@,
            installations: runtime_views(self.ruby_installations@),
            requested: opt_str(self.requested_ruby_version),
            gem_base_dir: opt_str(self.gem_base_dir),
        }
    }
}

/// What the program read for a discovery: the listing of the rubies
/// directory, the Bundler project found from the working directory (its
/// root, see [`crate::bundler::BundlerRuntimeDetector::discover`]), the
/// version files of the working directory, and the user's home directory.
#[derive(Debug, Clone)]
pub struct DiscoveryInputs {
    pub rubies_listing: DirListing,
    pub bundler_root: Option<String>,
    pub version_sources: VersionSources,
    pub home_dir: Option<String>,
}

/// The empty runtime of a discovery that found no Ruby to use.
pub open spec fn empty_view(rubies_dir: Seq<char>, current_dir: Seq<char>) -> ButlerView {
    ButlerView {
        ruby: None,
        gems: None,
        bundler: None,
        rubies_dir,
        current_dir,
        installations: Seq::empty(),
        requested: None,
        gem_base_dir: None,
    }
}

/// The installations a listing gives, up to their order (see
/// [`RubyRuntimeDetector::discover`]): none when the directory or an entry
/// could not be read.
pub open spec fn installations_from(root: Seq<char>, listing: DirListing, inst: Seq<RuntimeParts>) -> bool {
    match listing {
        DirListing::Missing => inst.len() == 0,
        DirListing::Unreadable(_) => inst.len() == 0,
        DirListing::Read(entries) => match first_failure(entries@) {
            Some(_) => inst.len() == 0,
            None => inst.to_multiset() == accepted(root, entries@).to_multiset() && latest_first(
                inst,
            ),
        },
    }
}

/// The Bundler root in effect: none when Bundler is skipped.
pub open spec fn bundler_root_in_effect(skip_bundler: bool, found: Option<Seq<char>>) -> Option<
    Seq<char>,
> {
    if skip_bundler {
        None
    } else {
        found
    }
}

/// The version the working directory's files require, looked at only in a
/// Bundler project: `.ruby-version` first, then the Gemfile.
pub open spec fn required_version(bundler_root: Option<Seq<char>>, sources: VersionSources) -> Option<
    VersionParts,
> {
    if bundler_root is Some {
        first_detected(
            seq![RubyVersionDetector::RubyVersionFile, RubyVersionDetector::Gemfile],
            sources,
        )
    } else {
        None
    }
}

/// The gem path detector chain of an environment.
pub open spec fn gem_chain(in_bundler: bool) -> Seq<GemPathDetector> {
    if in_bundler {
        seq![GemPathDetector::CustomGemBase, GemPathDetector::BundlerIsolation]
    } else {
        seq![GemPathDetector::CustomGemBase, GemPathDetector::UserGems]
    }
}

/// The outcome of a discovery, from the installations found in order: an
/// empty runtime when there are none; an error when a requested version is
/// not installed; an empty runtime when nothing else selects a Ruby;
/// otherwise the selected Ruby with its Bundler project (when one is in
/// effect) and the gem runtime of the detected gem paths.
pub open spec fn compose_spec(
    inst: Seq<RuntimeParts>,
    rubies_dir: Seq<char>,
    requested: Option<Seq<char>>,
    gem_base_dir: Option<Seq<char>>,
    skip_bundler: bool,
    current_dir: Seq<char>,
    bundler_found: Option<Seq<char>>,
    sources: VersionSources,
    home_dir: Option<Seq<char>>,
) -> Result<ButlerView, ErrorView> {
    if inst.len() == 0 {
        Ok(empty_view(rubies_dir, current_dir))
    } else {
        let root = bundler_root_in_effect(skip_bundler, bundler_found);
        match select_spec(inst, requested, required_version(root, sources)) {
            None => match requested {
                Some(t) => Err(
                    ErrorView::NoSuitableRuby("Requested Ruby version "@ + t + " not found"@),
                ),
                None => Ok(empty_view(rubies_dir, current_dir)),
            },
            Some(ruby) => {
                let ctx = (current_dir, ruby, gem_base_dir, home_dir);
                let config = chain_config(gem_chain(root is Some), ctx).unwrap();
                Ok(
                    ButlerView {
                        ruby: Some(ruby),
                        gems: gem_runtime_of_config(config, ruby.1),
                        bundler: match root {
                            Some(r) => Some((r, ruby.1)),
                            None => None,
                        },
                        rubies_dir,
                        current_dir,
                        installations: inst,
                        requested,
                        gem_base_dir,
                    },
                )
            },
        }
    }
}

/// In a Bundler project the bundle stands alone: the project is composed
/// for the selected Ruby's version, no gem runtime is composed unless a
/// custom gem base is given, and whatever gem runtime there is, the gem and
/// executable directories are the bundle's (once configured) and the Ruby's
/// own: the user's gems never come in.
pub proof fn law_bundler_isolation(
    inst: Seq<RuntimeParts>,
    rubies_dir: Seq<char>,
    requested: Option<Seq<char>>,
    gem_base_dir: Option<Seq<char>>,
    current_dir: Seq<char>,
    bundler_root: Seq<char>,
    sources: VersionSources,
    home_dir: Option<Seq<char>>,
    configured: bool,
)
    ensures
        compose_spec(
            inst,
            rubies_dir,
            requested,
            gem_base_dir,
            false,
            current_dir,
            Some(bundler_root),
            sources,
            home_dir,
        ) matches Ok(b) ==> {
            &&& b.ruby matches Some(r) ==> b.bundler == Some((bundler_root, r.1))
            &&& gem_base_dir is None ==> b.gems is None
            &&& b.ruby matches Some(r) ==> gem_dirs_spec(b, configured) == (if configured {
                seq![ruby_vendor_dir_of(bundler_root, r.1), lib_dir_of(r)]
            } else {
                seq![lib_dir_of(r)]
            })
            &&& b.ruby matches Some(r) ==> bin_dirs_spec(b, configured) == (if configured {
                seq![path_join(ruby_vendor_dir_of(bundler_root, r.1), "bin"@), path_join(r.2, "bin"@)]
            } else {
                seq![path_join(r.2, "bin"@)]
            })
        },
{
    reveal_with_fuel(crate::gem_paths::first_config, 3);
}

/// With Bundler skipped no bundle is in effect, even inside a Bundler
/// project; and without a custom gem base, when the home directory is
/// known, the user's gems are composed.
pub proof fn law_no_bundler_restores_user_gems(
    inst: Seq<RuntimeParts>,
    rubies_dir: Seq<char>,
    requested: Option<Seq<char>>,
    current_dir: Seq<char>,
    bundler_found: Option<Seq<char>>,
    sources: VersionSources,
    home: Seq<char>,
)
    ensures
        compose_spec(
            inst,
            rubies_dir,
            requested,
            None,
            true,
            current_dir,
            bundler_found,
            sources,
            Some(home),
        ) matches Ok(b) ==> b.bundler is None && (b.ruby is Some ==> b.gems is Some),
{
    reveal_with_fuel(crate::gem_paths::first_config, 3);
}

/// Whether a discovery would have to fall back on the user's gems with no
/// home directory to find them in: installations are found, one is
/// selected, no Bundler project is in effect and no custom gem base given.
pub open spec fn needs_home_dir(
    rubies_dir: Seq<char>,
    listing: DirListing,
    requested: Option<Seq<char>>,
    gem_base_dir: Option<Seq<char>>,
    skip_bundler: bool,
    bundler_found: Option<Seq<char>>,
) -> bool {
    &&& listing matches DirListing::Read(entries)
    &&& first_failure(entries@) is None
    &&& accepted(rubies_dir, entries@).len() > 0
    &&& match requested {
        Some(t) => semver_parse(t) matches Some(v) && exists|i: int|
            0 <= i < accepted(rubies_dir, entries@).len() && #[trigger] accepted(
                rubies_dir,
                entries@,
            )[i].1 == v,
        None => true,
    }
    &&& bundler_root_in_effect(skip_bundler, bundler_found) is None
    &&& gem_base_dir is None
}

/// The view of a discovery's result.
pub open spec fn result_view(r: Result<ButlerRuntime, ButlerError>) -> Result<ButlerView, ErrorView> {
    match r {
        Ok(b) => Ok(b@),
        Err(e) => Err(e@),
    }
}

impl ButlerRuntime {
    /// A runtime of a Ruby and, optionally, its gem runtime, for a working
    /// directory; the rubies directory is `.`.
    pub fn new(ruby_runtime: RubyRuntime, gem_runtime: Option<GemRuntime>, current_dir: &str) -> (r:
        ButlerRuntime)
        ensures
            r.ruby_runtime == Some(ruby_runtime),
            r.gem_runtime == gem_runtime,
            r.bundler_runtime is None,
            r.rubies_dir@ == "."@,
            r.current_dir@ == current_dir@,
            r.ruby_installations@.len() == 0,
            r.requested_ruby_version is None,
            r.gem_base_dir is None,
    {
        ButlerRuntime {
            ruby_runtime: Some(ruby_runtime),
            gem_runtime,
            bundler_runtime: None,
            rubies_dir: owned("."),
            current_dir: owned(current_dir),
            ruby_installations: Vec::new(),
            requested_ruby_version: None,
            gem_base_dir: None,
        }
    }

    /// A copy of this runtime.
    pub fn duplicate(&self) -> (r: ButlerRuntime)
        ensures
            r@ == self@,
    {
        let mut installations: Vec<RubyRuntime> = Vec::new();
        let mut i: usize = 0;
        while i < self.ruby_installations.len()
            invariant
                i <= self.ruby_installations@.len(),
                runtime_views(installations@) == runtime_views(self.ruby_installations@).subrange(0, i as int),
            decreases self.ruby_installations@.len() - i,
        {
            let ghost before = installations@;
            installations.push(self.ruby_installations[i].duplicate());
            proof {
                assert(runtime_views(installations@) =~= runtime_views(before).push(
                    self.ruby_installations@[i as int]@,
                ));
                assert(runtime_views(self.ruby_installations@).subrange(0, i + 1) =~= runtime_views(
                    self.ruby_installations@,
                ).subrange(0, i as int).push(self.ruby_installations@[i as int]@));
            }
            i = i + 1;
        }
        proof {
            assert(runtime_views(self.ruby_installations@).subrange(0, i as int) =~= runtime_views(
                self.ruby_installations@,
            ));
        }
        ButlerRuntime {
            ruby_runtime: match &self.ruby_runtime {
                Some(r) => Some(r.duplicate()),
                None => None,
            },
            gem_runtime: match &self.gem_runtime {
                Some(g) => Some(GemRuntime { gem_home: g.gem_home.clone(), gem_bin: g.gem_bin.clone() }),
                None => None,
            },
            bundler_runtime: match &self.bundler_runtime {
                Some(b) => Some(b.duplicate()),
                None => None,
            },
            rubies_dir: self.rubies_dir.clone(),
            current_dir: self.current_dir.clone(),
            ruby_installations: installations,
            requested_ruby_version: match &self.requested_ruby_version {
                Some(t) => Some(t.clone()),
                None => None,
            },
            gem_base_dir: match &self.gem_base_dir {
                Some(t) => Some(t.clone()),
                None => None,
            },
        }
    }

    /// The runtime of a discovery that found no Ruby to use.
    pub fn empty(rubies_dir: &str, current_dir: &str) -> (r: ButlerRuntime)
        ensures
            r@ == empty_view(rubies_dir@, current_dir@),
    {
        let r = ButlerRuntime {
            ruby_runtime: None,
            gem_runtime: None,
            bundler_runtime: None,
            rubies_dir: owned(rubies_dir),
            current_dir: owned(current_dir),
            ruby_installations: Vec::new(),
            requested_ruby_version: None,
            gem_base_dir: None,
        };
        proof {
            assert(runtime_views(r.ruby_installations@) =~= Seq::<RuntimeParts>::empty());
        }
        r
    }

    /// Discovers the installations, the Bundler project and the gem paths,
    /// and selects the Ruby to use (see [`compose_spec`]). A missing rubies
    /// directory is `RubiesDirectoryNotFound`; an unreadable one counts as
    /// holding no installation.
    pub fn discover_and_compose_with_current_dir(
        rubies_dir: &str,
        requested_ruby_version: Option<String>,
        gem_base_dir: Option<String>,
        skip_bundler: bool,
        current_dir: &str,
        inputs: &DiscoveryInputs,
    ) -> (r: Result<ButlerRuntime, ButlerError>)
        requires
            needs_home_dir(
                rubies_dir@,
                inputs.rubies_listing,
                opt_str(requested_ruby_version),
                opt_str(gem_base_dir),
                skip_bundler,
                opt_str(inputs.bundler_root),
            ) ==> inputs.home_dir is Some,
        ensures
            inputs.rubies_listing is Missing ==> (r matches Err(
                ButlerError::RubiesDirectoryNotFound(p),
            ) && p@ == rubies_dir@),
            !(inputs.rubies_listing is Missing) ==> exists|inst: Seq<RuntimeParts>|
                #[trigger] installations_from(rubies_dir@, inputs.rubies_listing, inst)
                    && result_view(r) == compose_spec(
                    inst,
                    rubies_dir@,
                    opt_str(requested_ruby_version),
                    opt_str(gem_base_dir),
                    skip_bundler,
                    current_dir@,
                    opt_str(inputs.bundler_root),
                    inputs.version_sources,
                    opt_str(inputs.home_dir),
                ),
    {
        let installations = match RubyRuntimeDetector::discover(rubies_dir, &inputs.rubies_listing) {
            Ok(v) => v,
            Err(RubyDiscoveryError::DirectoryNotFound(p)) => {
                return Err(ButlerError::RubiesDirectoryNotFound(p));
            },
            Err(RubyDiscoveryError::IoError(_)) => Vec::new(),
        };
        let ghost inst = runtime_views(installations@);
        proof {
            if installations@.len() == 0 {
                assert(inst =~= Seq::<RuntimeParts>::empty());
            }
            assert(installations_from(rubies_dir@, inputs.rubies_listing, inst));
        }
        if installations.len() == 0 {
            return Ok(Self::empty(rubies_dir, current_dir));
        }
        let bundler_root: Option<&String> = if skip_bundler {
            None
        } else {
            inputs.bundler_root.as_ref()
        };
        let required = match bundler_root {
            Some(_) => CompositeDetector::standard().detect(&inputs.version_sources),
            None => None,
        };
        let requested_ref: Option<&str> = match &requested_ruby_version {
            Some(t) => Some(t.as_str()),
            None => None,
        };
        let selected = select_ruby_runtime(installations.as_slice(), requested_ref, required.as_ref());
        let selected = match selected {
            Some(s) => s,
            None => {
                match &requested_ruby_version {
                    Some(t) => {
                        let a = concat("Requested Ruby version ", t.as_str());
                        let m = concat(a.as_str(), " not found");
                        proof {
                            reveal_strlit("Requested Ruby version ");
                            reveal_strlit(" not found");
                        }
                        return Err(ButlerError::NoSuitableRuby(m));
                    },
                    None => {
                        return Ok(Self::empty(rubies_dir, current_dir));
                    },
                }
            },
        };
        let bundler_runtime = match bundler_root {
            Some(root) => Some(BundlerRuntime::new(root.as_str(), selected.version.duplicate())),
            None => None,
        };
        let detector = if bundler_runtime.is_some() {
            bundler_gem_path_detector()
        } else {
            standard_gem_path_detector()
        };
        let base_ref: Option<&str> = match &gem_base_dir {
            Some(b) => Some(b.as_str()),
            None => None,
        };
        let home_ref: Option<&str> = match &inputs.home_dir {
            Some(h) => Some(h.as_str()),
            None => None,
        };
        let context = GemPathContext::with_home_dir(current_dir, &selected, base_ref, home_ref);
        proof {
            if let Some(t) = opt_str(requested_ruby_version) {
                law_requested_version_is_exact(
                    inst,
                    t,
                    required_version(bundler_root_in_effect(skip_bundler, opt_str(inputs.bundler_root)), inputs.version_sources),
                );
            }
            lemma_chain_total(
                inst,
                rubies_dir@,
                inputs.rubies_listing,
                opt_str(requested_ruby_version),
                opt_str(gem_base_dir),
                skip_bundler,
                opt_str(inputs.bundler_root),
                context@,
                bundler_runtime is Some,
            );
        }
        let config = detector.detect(&context);
        let gem_runtime = match config.gem_home() {
            Some(home) => {
                let base = match parent(home.as_str()) {
                    Some(p) => p,
                    None => home,
                };
                Some(GemRuntime::for_base_dir(base.as_str(), &selected.version))
            },
            None => None,
        };
        Ok(
            ButlerRuntime {
                ruby_runtime: Some(selected),
                gem_runtime,
                bundler_runtime,
                rubies_dir: owned(rubies_dir),
                current_dir: owned(current_dir),
                ruby_installations: installations,
                requested_ruby_version,
                gem_base_dir,
            },
        )
    }

    /// The rubies directory searched.
    pub fn rubies_dir(&self) -> (r: &String)
        ensures
            r@ == self.rubies_dir@,
    {
        &self.rubies_dir
    }

    /// The working directory of the discovery.
    pub fn current_dir(&self) -> (r: &String)
        ensures
            r@ == self.current_dir@,
    {
        &self.current_dir
    }

    /// The installations found, latest first.
    pub fn ruby_installations(&self) -> (r: &[RubyRuntime])
        ensures
            r@ == self.ruby_installations@,
    {
        self.ruby_installations.as_slice()
    }

    /// The version that was requested, if one was.
    pub fn requested_ruby_version(&self) -> (r: Option<&str>)
        ensures
            opt_slice(r) == opt_str(self.requested_ruby_version),
    {
        match &self.requested_ruby_version {
            Some(s) => Some(s.as_str()),
            None => None,
        }
    }

    /// The selected Ruby, or `NoSuitableRuby` when there is none.
    pub fn selected_ruby(&self) -> (r: Result<&RubyRuntime, ButlerError>)
        ensures
            match self.ruby_runtime {
                Some(x) => r == Ok::<&RubyRuntime, ButlerError>(&x),
                None => r matches Err(e) && e@ == ErrorView::NoSuitableRuby(
                    "No Ruby installation available. Please install Ruby first."@,
                ),
            },
    {
        match &self.ruby_runtime {
            Some(x) => Ok(x),
            None => Err(
                ButlerError::NoSuitableRuby(
                    owned("No Ruby installation available. Please install Ruby first."),
                ),
            ),
        }
    }

    /// The Bundler project, if one is in effect.
    pub fn bundler_runtime(&self) -> (r: Option<&BundlerRuntime>)
        ensures
            r == (match self.bundler_runtime {
                Some(b) => Some(&b),
                None => None::<&BundlerRuntime>,
            }),
    {
        self.bundler_runtime.as_ref()
    }

    /// What `rb sync` works on: the Bundler project in effect, or the error
    /// `No bundler environment detected` where there is none.
    pub fn sync_precondition(&self) -> (r: Result<&BundlerRuntime, ButlerError>)
        ensures
            match r {
                Ok(b) => self.bundler_runtime == Some(*b),
                Err(e) => self.bundler_runtime is None && e@ == ErrorView::General(
                    "No bundler environment detected"@,
                ),
            },
    {
        match &self.bundler_runtime {
            Some(b) => Ok(b),
            None => Err(ButlerError::General(owned("No bundler environment detected"))),
        }
    }

    /// The Bundler project, if one is in effect.
    pub fn bundler_environment(&self) -> (r: Option<&BundlerRuntime>)
        ensures
            r == (match self.bundler_runtime {
                Some(b) => Some(&b),
                None => None::<&BundlerRuntime>,
            }),
    {
        self.bundler_runtime.as_ref()
    }

    /// The gem runtime, if there is one.
    pub fn gem_runtime(&self) -> (r: Option<&GemRuntime>)
        ensures
            r == (match self.gem_runtime {
                Some(g) => Some(&g),
                None => None::<&GemRuntime>,
            }),
    {
        self.gem_runtime.as_ref()
    }

    /// The custom gem base directory, if one was given.
    pub fn gem_base_dir(&self) -> (r: Option<&String>)
        ensures
            r == (match self.gem_base_dir {
                Some(g) => Some(&g),
                None => None::<&String>,
            }),
    {
        self.gem_base_dir.as_ref()
    }

    /// Is there a usable Ruby environment, that is, a selected Ruby?
    pub fn has_ruby_environment(&self) -> (r: bool)
        ensures
            r == (self.ruby_runtime is Some),
    {
        self.ruby_runtime.is_some()
    }

    /// The gem home, from the gem runtime.
    pub fn gem_home(&self) -> (r: Option<String>)
        ensures
            opt_str(r) == (match self.gem_runtime {
                Some(g) => Some(g.gem_home@),
                None => None::<Seq<char>>,
            }),
    {
        match &self.gem_runtime {
            Some(g) => Some(g.gem_home.clone()),
            None => None,
        }
    }

    /// The directories of executables, highest priority first: in a Bundler
    /// project the bundle's (once configured), otherwise the user's gems';
    /// then the Ruby's own.
    pub fn bin_dirs(&self, bundler_configured: bool) -> (r: Vec<String>)
        ensures
            views_of(r@) == bin_dirs_spec(self@, bundler_configured),
    {
        let mut dirs: Vec<String> = Vec::new();
        match &self.bundler_runtime {
            Some(b) => {
                match b.provided_bin_dir(bundler_configured) {
                    Some(d) => dirs.push(d),
                    None => {},
                }
            },
            None => {
                match &self.gem_runtime {
                    Some(g) => dirs.push(g.gem_bin.clone()),
                    None => {},
                }
            },
        }
        match &self.ruby_runtime {
            Some(ruby) => dirs.push(ruby.bin_dir()),
            None => {},
        }
        proof {
            assert(views_of(dirs@) =~= bin_dirs_spec(self@, bundler_configured));
        }
        dirs
    }

    /// The gem directories, highest priority first: in a Bundler project
    /// the bundle's (once configured), otherwise the user's gem home; then
    /// the Ruby's own gem directory.
    pub fn gem_dirs(&self, bundler_configured: bool) -> (r: Vec<String>)
        ensures
            views_of(r@) == gem_dirs_spec(self@, bundler_configured),
    {
        let mut dirs: Vec<String> = Vec::new();
        match &self.bundler_runtime {
            Some(b) => {
                match b.provided_gem_dir(bundler_configured) {
                    Some(d) => dirs.push(d),
                    None => {},
                }
            },
            None => {
                match &self.gem_runtime {
                    Some(g) => dirs.push(g.gem_home.clone()),
                    None => {},
                }
            },
        }
        match &self.ruby_runtime {
            Some(ruby) => dirs.push(ruby.lib_dir()),
            None => {},
        }
        proof {
            assert(views_of(dirs@) =~= gem_dirs_spec(self@, bundler_configured));
        }
        dirs
    }

    /// `PATH`: the bin directories, then the existing `PATH` when there is
    /// one, joined with `:`.
    pub fn build_path(&self, existing_path: Option<String>, bundler_configured: bool) -> (r: String)
        ensures
            r@ == path_value(self@, opt_str(existing_path), bundler_configured),
    {
        let mut parts = self.bin_dirs(bundler_configured);
        match existing_path {
            Some(p) => parts.push(p),
            None => {},
        }
        proof {
            assert(views_of(parts@) =~= path_parts(self@, opt_str(existing_path), bundler_configured));
        }
        join_strings(parts.as_slice(), ":")
    }

    /// `GEM_PATH`: the gem home, then each gem directory not already listed,
    /// joined with `:`.
    pub fn gem_path(&self, gem_home: &str, bundler_configured: bool) -> (r: String)
        ensures
            r@ == joined(
                dedup_after(seq![gem_home@], gem_dirs_spec(self@, bundler_configured)),
                ":"@,
            ),
    {
        let dirs = self.gem_dirs(bundler_configured);
        let mut parts: Vec<String> = Vec::new();
        parts.push(owned(gem_home));
        let ghost all = views_of(dirs@);
        let mut i: usize = 0;
        proof {
            assert(views_of(parts@) =~= seq![gem_home@]);
            assert(all.subrange(0, 0) =~= Seq::<Seq<char>>::empty());
        }
        while i < dirs.len()
            invariant
                i <= dirs@.len(),
                all == views_of(dirs@),
                views_of(parts@) == dedup_after(seq![gem_home@], all.subrange(0, i as int)),
            decreases dirs.len() - i,
        {
            proof {
                assert(all.subrange(0, i + 1).drop_last() =~= all.subrange(0, i as int));
                assert(all.subrange(0, i + 1).last() == dirs@[i as int]@);
            }
            if !contains_string(parts.as_slice(), dirs[i].as_str()) {
                parts.push(dirs[i].clone());
                proof {
                    assert(views_of(parts@) =~= views_of(parts@.drop_last()).push(dirs@[i as int]@));
                }
            }
            i = i + 1;
        }
        proof {
            assert(all.subrange(0, dirs@.len() as int) =~= all);
        }
        join_strings(parts.as_slice(), ":")
    }

    /// The environment variables of the runtime, in this order: `PATH`;
    /// `GEM_HOME` and `GEM_PATH` when there is a gem runtime; `BUNDLE_GEMFILE`
    /// and `BUNDLE_APP_CONFIG` in a Bundler project.
    pub fn env_vars(&self, existing_path: Option<String>, bundler_configured: bool) -> (r: Vec<
        (String, String),
    >)
        ensures
            pairs_view(r@) == env_spec(self@, opt_str(existing_path), bundler_configured),
    {
        let mut env: Vec<(String, String)> = Vec::new();
        let path = self.build_path(existing_path, bundler_configured);
        env.push((owned("PATH"), path));
        match self.gem_home() {
            Some(home) => {
                let gp = self.gem_path(home.as_str(), bundler_configured);
                env.push((owned("GEM_HOME"), home));
                env.push((owned("GEM_PATH"), gp));
            },
            None => {},
        }
        match &self.bundler_runtime {
            Some(b) => {
                env.push((owned("BUNDLE_GEMFILE"), b.gemfile_path()));
                env.push((owned("BUNDLE_APP_CONFIG"), b.app_config_dir()));
            },
            None => {},
        }
        proof {
            assert(pairs_view(env@) =~= env_spec(self@, opt_str(existing_path), bundler_configured));
        }
        env
    }
}

/// The bin directories of a runtime.
pub open spec fn bin_dirs_spec(b: ButlerView, configured: bool) -> Seq<Seq<char>> {
    let first: Seq<Seq<char>> = match b.bundler {
        Some(bu) => if configured {
            seq![path_join(ruby_vendor_dir_of(bu.0, bu.1), "bin"@)]
        } else {
            Seq::empty()
        },
        None => match b.gems {
            Some(g) => seq![g.1],
            None => Seq::empty(),
        },
    };
    match b.ruby {
        Some(r) => first.push(path_join(r.2, "bin"@)),
        None => first,
    }
}

/// The gem directories of a runtime.
pub open spec fn gem_dirs_spec(b: ButlerView, configured: bool) -> Seq<Seq<char>> {
    let first: Seq<Seq<char>> = match b.bundler {
        Some(bu) => if configured {
            seq![ruby_vendor_dir_of(bu.0, bu.1)]
        } else {
            Seq::empty()
        },
        None => match b.gems {
            Some(g) => seq![g.0],
            None => Seq::empty(),
        },
    };
    match b.ruby {
        Some(r) => first.push(lib_dir_of(r)),
        None => first,
    }
}

/// The parts of `PATH`.
pub open spec fn path_parts(b: ButlerView, existing: Option<Seq<char>>, configured: bool) -> Seq<
    Seq<char>,
> {
    match existing {
        Some(e) => bin_dirs_spec(b, configured).push(e),
        None => bin_dirs_spec(b, configured),
    }
}

/// The value of `PATH`.
pub open spec fn path_value(b: ButlerView, existing: Option<Seq<char>>, configured: bool) -> Seq<char> {
    joined(path_parts(b, existing, configured), ":"@)
}

/// `start` followed by the items of `items` that are not yet listed, in
/// order.
pub open spec fn dedup_after(start: Seq<Seq<char>>, items: Seq<Seq<char>>) -> Seq<Seq<char>>
    decreases items.len(),
{
    if items.len() == 0 {
        start
    } else {
        let pre = dedup_after(start, items.drop_last());
        if pre.contains(items.last()) {
            pre
        } else {
            pre.push(items.last())
        }
    }
}

/// `GEM_PATH` begins with `GEM_HOME` and names every gem directory exactly
/// once: the directories of `dedup_after([home], dirs)` are `home` first,
/// then those of `dirs`, none repeated.
pub proof fn law_gem_path_lists_each_directory_once(home: Seq<char>, dirs: Seq<Seq<char>>)
    ensures
        dedup_after(seq![home], dirs).len() >= 1,
        dedup_after(seq![home], dirs)[0] == home,
        forall|i: int, j: int|
            0 <= i < j < dedup_after(seq![home], dirs).len() ==> #[trigger] dedup_after(
                seq![home],
                dirs,
            )[i] != #[trigger] dedup_after(seq![home], dirs)[j],
        forall|x: Seq<char>|
            #[trigger] dedup_after(seq![home], dirs).contains(x) <==> (x == home || dirs.contains(x)),
    decreases dirs.len(),
{
    if dirs.len() == 0 {
        assert(seq![home][0] == home);
        assert(seq![home].contains(home));
        assert forall|x: Seq<char>| #[trigger] seq![home].contains(x) <==> (x == home || dirs.contains(x)) by {
            if seq![home].contains(x) {
                let k = choose|k: int| 0 <= k < 1 && seq![home][k] == x;
            }
        }
    } else {
        let rest = dirs.drop_last();
        law_gem_path_lists_each_directory_once(home, rest);
        let pre = dedup_after(seq![home], rest);
        let last = dirs.last();
        assert forall|x: Seq<char>| #[trigger] dirs.contains(x) <==> (rest.contains(x) || x == last) by {
            if dirs.contains(x) {
                let k = choose|k: int| 0 <= k < dirs.len() && dirs[k] == x;
                if k < dirs.len() - 1 {
                    assert(rest[k] == x);
                }
            }
            if rest.contains(x) {
                let k = choose|k: int| 0 <= k < rest.len() && rest[k] == x;
                assert(dirs[k] == x);
            }
            if x == last {
                assert(dirs[dirs.len() - 1] == x);
            }
        }
        if !pre.contains(last) {
            let post = pre.push(last);
            assert forall|x: Seq<char>| #[trigger] post.contains(x) <==> (pre.contains(x) || x == last) by {
                vstd::seq_lib::lemma_seq_contains_after_push(pre, last, x);
            }
        }
    }
}

/// The texts of a sequence of pairs of strings.
pub open spec fn pairs_view(v: Seq<(String, String)>) -> Seq<(Seq<char>, Seq<char>)> {
    v.map_values(|p: (String, String)| (p.0@, p.1@))
}

/// The environment variables of a runtime.
pub open spec fn env_spec(b: ButlerView, existing: Option<Seq<char>>, configured: bool) -> Seq<
    (Seq<char>, Seq<char>),
> {
    let with_path = seq![("PATH"@, path_value(b, existing, configured))];
    let with_gems = match b.gems {
        Some(g) => with_path + seq![
            ("GEM_HOME"@, g.0),
            ("GEM_PATH"@, joined(dedup_after(seq![g.0], gem_dirs_spec(b, configured)), ":"@)),
        ],
        None => with_path,
    };
    match b.bundler {
        Some(bu) => with_gems + seq![
            ("BUNDLE_GEMFILE"@, path_join(bu.0, "Gemfile"@)),
            ("BUNDLE_APP_CONFIG"@, path_join(bu.0, ".rb"@)),
        ],
        None => with_gems,
    }
}

/// Where a gem chain is asked for a configuration, it has one.
proof fn lemma_chain_total(
    inst: Seq<RuntimeParts>,
    rubies_dir: Seq<char>,
    listing: DirListing,
    requested: Option<Seq<char>>,
    gem_base_dir: Option<Seq<char>>,
    skip_bundler: bool,
    bundler_found: Option<Seq<char>>,
    ctx: crate::gem_paths::ContextParts,
    in_bundler: bool,
)
    requires
        installations_from(rubies_dir, listing, inst),
        inst.len() > 0,
        in_bundler == (bundler_root_in_effect(skip_bundler, bundler_found) is Some),
        ctx.2 == gem_base_dir,
        needs_home_dir(rubies_dir, listing, requested, gem_base_dir, skip_bundler, bundler_found)
            ==> ctx.3 is Some,
        requested matches Some(t) ==> (semver_parse(t) matches Some(v) && exists|i: int|
            0 <= i < inst.len() && #[trigger] inst[i].1 == v),
    ensures
        chain_config(gem_chain(in_bundler), ctx) is Some,
{
    reveal_with_fuel(crate::gem_paths::first_config, 3);
    if !in_bundler && gem_base_dir is None {
        if let DirListing::Read(entries) = listing {
            if first_failure(entries@) is None {
                let acc = accepted(rubies_dir, entries@);
                assert(inst.to_multiset() == acc.to_multiset());
                assert(acc.len() > 0) by {
                    vstd::seq_lib::to_multiset_len(inst);
                    vstd::seq_lib::to_multiset_len(acc);
                }
                if let Some(t) = requested {
                    let v = semver_parse(t).unwrap();
                    let i = choose|i: int| 0 <= i < inst.len() && #[trigger] inst[i].1 == v;
                    assert(inst.contains(inst[i]));
                    assert(inst.to_multiset().count(inst[i]) > 0);
                    assert(acc.to_multiset().count(inst[i]) > 0);
                    assert(acc.contains(inst[i]));
                    let j = choose|j: int| 0 <= j < acc.len() && acc[j] == inst[i];
                    assert(acc[j].1 == v);
                }
                assert(needs_home_dir(rubies_dir, listing, requested, gem_base_dir, skip_bundler, bundler_found));
            }
        }
    }
}

} // verus!
