//! A discovery of the environment done once, with the views that commands
//! take of it: the installations, the Bundler project, the Ruby selected and
//! the runtime composed for it.
use vstd::prelude::*;
use crate::butler::{opt_runtime, opt_str, select_ruby_runtime, select_spec, ButlerRuntime};
use crate::discovery::{runtime_views, RubyDiscoveryError};
use crate::gems::{gem_runtime_for, GemRuntime};
use crate::path::path_join;
use crate::ruby::RubyRuntime;
use crate::text::{concat, owned};
use crate::version::{opt_parts, RubyVersion, VersionParts};
use crate::version_detector::{first_detected, CompositeDetector, RubyVersionDetector, VersionSources};

verus! {

/// What a discovery found: the rubies directory searched, the version asked
/// for, the working directory, the installations, the root of the Bundler
/// project found from the working directory, the version that project asks
/// for, the Ruby selected and the runtime composed for it.
#[derive(Debug, Clone)]
pub struct DiscoveryContext {
    pub rubies_dir: String,
    pub requested_ruby_version: Option<String>,
    pub current_dir: String,
    pub ruby_installations: Vec<RubyRuntime>,
    pub bundler_root: Option<String>,
    pub required_ruby_version: Option<RubyVersion>,
    pub selected_ruby: Option<RubyRuntime>,
    pub butler_runtime: Option<ButlerRuntime>,
}

/// The message of an installation search that failed.
pub open spec fn discovery_failure_message(e: RubyDiscoveryError) -> Seq<char> {
    "Failed to discover Ruby installations: "@ + match e {
        RubyDiscoveryError::DirectoryNotFound(p) => "Directory not found: "@ + p@,
        RubyDiscoveryError::IoError(m) => "I/O error: "@ + m@,
    }
}

/// The version a Bundler project asks for: its `.ruby-version` file, else
/// its Gemfile; nothing without a project.
pub open spec fn required_version_of(bundler_root: Option<String>, sources: VersionSources) -> Option<VersionParts> {
    if bundler_root is Some {
        first_detected(seq![RubyVersionDetector::RubyVersionFile, RubyVersionDetector::Gemfile], sources)
    } else {
        None
    }
}

/// The gem runtime composed for a selected Ruby: the user's gems under the
/// home directory, none when the home directory is unknown.
pub open spec fn inferred_gems(ruby: RubyRuntime, home_dir: Option<Seq<char>>) -> Option<(Seq<char>, Seq<char>)> {
    match home_dir {
        Some(h) => Some(gem_runtime_for(path_join(h, ".gem"@), ruby.version@)),
        None => None,
    }
}

/// The views of an optional gem runtime.
pub open spec fn opt_gems(g: Option<GemRuntime>) -> Option<(Seq<char>, Seq<char>)> {
    match g {
        Some(x) => Some(x@),
        None => None,
    }
}

impl DiscoveryContext {
    /// Gathers a discovery from what was read: the result of searching the
    /// rubies directory, the Bundler project root found from the working
    /// directory (if any) with the version texts read in it, and the home
    /// directory. A failed search is the error `Failed to discover Ruby
    /// installations: <message>`. Otherwise the installations are kept
    /// whatever is selected; the Ruby is selected as [`select_spec`] says
    /// (the version asked for, else the one the project asks for, else the
    /// latest), and, when one is, a runtime is composed for it with the
    /// user's gems when the home directory is known.
    pub fn discover(
        rubies_dir: &str,
        requested_ruby_version: Option<String>,
        current_dir: &str,
        installations: Result<Vec<RubyRuntime>, RubyDiscoveryError>,
        bundler_root: Option<String>,
        version_sources: &VersionSources,
        home_dir: Option<&str>,
    ) -> (r: Result<DiscoveryContext, String>)
        ensures
            match installations {
                Err(e) => r matches Err(m) && m@ == discovery_failure_message(e),
                Ok(list) => r matches Ok(c) && {
                    &&& c.rubies_dir@ == rubies_dir@
                    &&& c.requested_ruby_version == requested_ruby_version
                    &&& c.current_dir@ == current_dir@
                    &&& c.ruby_installations@ == list@
                    &&& c.bundler_root == bundler_root
                    &&& opt_parts(c.required_ruby_version) == required_version_of(
                        bundler_root,
                        *version_sources,
                    )
                    &&& opt_runtime(c.selected_ruby) == select_spec(
                        runtime_views(list@),
                        opt_str(requested_ruby_version),
                        opt_parts(c.required_ruby_version),
                    )
                    &&& match c.selected_ruby {
                        None => c.butler_runtime is None,
                        Some(x) => c.butler_runtime matches Some(b) && opt_runtime(b.ruby_runtime) == Some(x@)
                            && opt_gems(b.gem_runtime) == inferred_gems(
                            x,
                            match home_dir {
                                Some(h) => Some(h@),
                                None => None,
                            },
                        ) && b.bundler_runtime is None && b.current_dir@ == current_dir@,
                    }
                },
            },
    {
        let list = match installations {
            Ok(list) => list,
            Err(e) => {
                let m = e.message();
                let text = concat("Failed to discover Ruby installations: ", m.as_str());
                proof {
                    assert(m@ == discovery_failure_message(e).subrange(
                        "Failed to discover Ruby installations: "@.len() as int,
                        discovery_failure_message(e).len() as int,
                    ));
                    assert(text@ =~= discovery_failure_message(e));
                }
                return Err(text);
            },
        };
        let required_ruby_version = match &bundler_root {
            Some(_) => CompositeDetector::standard().detect(version_sources),
            None => None,
        };
        let selected_ruby = select_ruby_runtime(
            list.as_slice(),
            match &requested_ruby_version {
                Some(t) => Some(t.as_str()),
                None => None,
            },
            match &required_ruby_version {
                Some(v) => Some(v),
                None => None,
            },
        );
        let butler_runtime = match &selected_ruby {
            Some(ruby) => {
                let gems = match ruby.gem_runtime_in_home(home_dir) {
                    Ok(g) => Some(g),
                    Err(_) => None,
                };
                Some(ButlerRuntime::new(ruby.duplicate(), gems, current_dir))
            },
            None => None,
        };
        Ok(
            DiscoveryContext {
                rubies_dir: owned(rubies_dir),
                requested_ruby_version,
                current_dir: owned(current_dir),
                ruby_installations: list,
                bundler_root,
                required_ruby_version,
                selected_ruby,
                butler_runtime,
            },
        )
    }

    /// Is there a usable Ruby environment, that is, a selected Ruby?
    pub fn has_ruby_environment(&self) -> (r: bool)
        ensures
            r == (self.selected_ruby is Some),
    {
        self.selected_ruby.is_some()
    }

    /// The composed runtime; without one, a runtime of the selected Ruby
    /// alone; without a selected Ruby, the error `No Ruby runtime available`.
    pub fn get_or_create_butler_runtime(&self) -> (r: Result<ButlerRuntime, String>)
        ensures
            match self.butler_runtime {
                Some(b) => r matches Ok(x) && x@ == b@,
                None => match self.selected_ruby {
                    Some(ruby) => r matches Ok(x) && x.ruby_runtime matches Some(y) && y@ == ruby@
                        && x.gem_runtime is None && x.bundler_runtime is None && x.current_dir@
                        == self.current_dir@,
                    None => r matches Err(m) && m@ == "No Ruby runtime available"@,
                },
            },
    {
        match &self.butler_runtime {
            Some(b) => Ok(b.duplicate()),
            None => match &self.selected_ruby {
                Some(ruby) => Ok(ButlerRuntime::new(ruby.duplicate(), None, self.current_dir.as_str())),
                None => Err(owned("No Ruby runtime available")),
            },
        }
    }
}

} // verus!
