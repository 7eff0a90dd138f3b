//! What `rb info runtime` reports: each installation with its gem and
//! executable directories, and which Ruby is selected. The program prints it.
use vstd::prelude::*;
use crate::butler::{first_with_version, latest_of, select_ruby_runtime, ButlerRuntime, ButlerView};
use crate::discovery::{runtime_views, RubyRuntimeDetector};
use crate::gems::gem_runtime_for;
use crate::path::path_join;
use crate::ruby::{law_user_gems_lie_in_home, lib_dir_of, RubyRuntime, RuntimeParts};
use crate::text::{str_eq, views_of};
use crate::version::{semver_parse, version_text, RubyVersion};

verus! {

/// One installation as the survey shows it: its version, its root, the gem
/// home of the user's gems (when the home directory is known), and the gem
/// and executable directories of a runtime of it, highest priority first.
#[derive(Debug, Clone)]
pub struct SurveyEntry {
    pub version: String,
    pub root: String,
    pub gem_home: Option<String>,
    pub gem_dirs: Vec<String>,
    pub bin_dirs: Vec<String>,
}

/// A survey entry as plain values.
pub type SurveyView = (Seq<char>, Seq<char>, Option<Seq<char>>, Seq<Seq<char>>, Seq<Seq<char>>);

impl View for SurveyEntry {
    type V = SurveyView;

    open spec fn view(&self) -> SurveyView {
        (
            self.version@,
            self.root@,
            match self.gem_home {
                Some(h) => Some(h@),
                None => None,
            },
            views_of(self.gem_dirs@),
            views_of(self.bin_dirs@),
        )
    }
}

/// The survey entry of an installation for a home directory: with a home,
/// the user's gems under `<home>/.gem` come first.
pub open spec fn survey_entry_spec(r: RuntimeParts, home: Option<Seq<char>>) -> SurveyView {
    let ruby_bin = path_join(r.2, "bin"@);
    match home {
        Some(h) => {
            let g = gem_runtime_for(path_join(h, ".gem"@), r.1);
            (version_text(r.1), r.2, Some(g.0), seq![g.0, lib_dir_of(r)], seq![g.1, ruby_bin])
        },
        None => (version_text(r.1), r.2, None, seq![lib_dir_of(r)], seq![ruby_bin]),
    }
}

/// The survey entry of an installation (see [`survey_entry_spec`]).
pub fn survey_entry(ruby: &RubyRuntime, home: Option<&str>) -> (r: SurveyEntry)
    ensures
        r@ == survey_entry_spec(
            ruby@,
            match home {
                Some(h) => Some(h@),
                None => None,
            },
        ),
{
    let gem_runtime = match ruby.gem_runtime_in_home(home) {
        Ok(g) => Some(g),
        Err(_) => None,
    };
    let butler = ButlerRuntime::new(ruby.duplicate(), gem_runtime, ".");
    let gem_home = butler.gem_home();
    let gem_dirs = butler.gem_dirs(false);
    let bin_dirs = butler.bin_dirs(false);
    let e = SurveyEntry {
        version: ruby.version.to_text(),
        root: ruby.root.clone(),
        gem_home,
        gem_dirs,
        bin_dirs,
    };
    proof {
        let h = match home {
            Some(h) => Some(h@),
            None => None,
        };
        assert(e@.3 =~= survey_entry_spec(ruby@, h).3);
        assert(e@.4 =~= survey_entry_spec(ruby@, h).4);
    }
    e
}

/// The first installation whose version reads `t`.
pub open spec fn first_with_text(s: Seq<RuntimeParts>, t: Seq<char>) -> Option<RuntimeParts>
    decreases s.len(),
{
    if s.len() == 0 {
        None
    } else if version_text(s[0].1) == t {
        Some(s[0])
    } else {
        first_with_text(s.drop_first(), t)
    }
}

/// The installation the survey selects: for a requested version, the first
/// installed with that version (compared as versions when the request
/// parses, else as text); otherwise the latest.
pub open spec fn survey_choice(s: Seq<RuntimeParts>, requested: Option<Seq<char>>) -> Option<
    RuntimeParts,
> {
    match requested {
        Some(t) => match semver_parse(t) {
            Some(v) => first_with_version(s, v),
            None => first_with_text(s, t),
        },
        None => latest_of(s),
    }
}

/// Index of the first installation whose version reads `t`, or the length.
fn position_of_text(list: &[RubyRuntime], t: &str) -> (k: usize)
    ensures
        k <= list@.len(),
        first_with_text(runtime_views(list@), t@) == (if k < list@.len() {
            Some(list@[k as int]@)
        } else {
            None
        }),
{
    let ghost s = runtime_views(list@);
    let mut k: usize = 0;
    proof {
        assert(s.subrange(0, s.len() as int) =~= s);
    }
    while k < list.len()
        invariant
            k <= list@.len(),
            s == runtime_views(list@),
            first_with_text(s, t@) == first_with_text(s.subrange(k as int, s.len() as int), t@),
        decreases list.len() - k,
    {
        proof {
            let rest = s.subrange(k as int, s.len() as int);
            assert(rest[0] == s[k as int]);
            assert(rest.drop_first() =~= s.subrange(k + 1, s.len() as int));
        }
        let text = list[k].version.to_text();
        if str_eq(text.as_str(), t) {
            return k;
        }
        k = k + 1;
    }
    proof {
        assert(s.subrange(k as int, s.len() as int) =~= Seq::<RuntimeParts>::empty());
    }
    k
}

/// How the survey ends.
#[derive(Debug, Clone)]
pub enum SurveyOutcome {
    /// The requested version is installed: this installation.
    Requested(RubyRuntime),
    /// No version was requested: the latest installation.
    Latest(RubyRuntime),
    /// The requested version is not installed; the versions that are.
    Missing { requested: String, available: Vec<String> },
    /// Nothing is installed.
    Empty,
}

/// The versions of a list of installations, as text.
pub open spec fn version_texts(s: Seq<RuntimeParts>) -> Seq<Seq<char>> {
    s.map_values(|r: RuntimeParts| version_text(r.1))
}

/// The outcome of a survey of installations `s` for a request.
pub open spec fn survey_outcome_holds(
    s: Seq<RuntimeParts>,
    requested: Option<Seq<char>>,
    o: SurveyOutcome,
) -> bool {
    if s.len() == 0 {
        o is Empty
    } else {
        match requested {
            Some(t) => match survey_choice(s, requested) {
                Some(x) => o matches SurveyOutcome::Requested(r) && r@ == x,
                None => o matches SurveyOutcome::Missing { requested: q, available } && q@ == t
                    && views_of(available@) == version_texts(s),
            },
            None => o matches SurveyOutcome::Latest(r) && Some(r@) == latest_of(s),
        }
    }
}

/// How the survey of `installations` ends for a request (see
/// [`survey_outcome_holds`]).
pub fn survey_outcome(installations: &[RubyRuntime], requested: Option<&str>) -> (r: SurveyOutcome)
    ensures
        survey_outcome_holds(
            runtime_views(installations@),
            match requested {
                Some(t) => Some(t@),
                None => None,
            },
            r,
        ),
{
    let ghost s = runtime_views(installations@);
    if installations.len() == 0 {
        return SurveyOutcome::Empty;
    }
    match requested {
        Some(t) => {
            let found = match RubyVersion::parse(t) {
                Some(_) => select_ruby_runtime(installations, Some(t), None),
                None => {
                    let k = position_of_text(installations, t);
                    if k < installations.len() {
                        Some(installations[k].duplicate())
                    } else {
                        None
                    }
                },
            };
            match found {
                Some(x) => SurveyOutcome::Requested(x),
                None => {
                    let mut available: Vec<String> = Vec::new();
                    let mut i: usize = 0;
                    while i < installations.len()
                        invariant
                            i <= installations@.len(),
                            s == runtime_views(installations@),
                            views_of(available@) == version_texts(s).subrange(0, i as int),
                        decreases installations.len() - i,
                    {
                        let ghost before = available@;
                        available.push(installations[i].version.to_text());
                        proof {
                            assert(views_of(available@) =~= views_of(before).push(
                                version_text(s[i as int].1),
                            ));
                            assert(version_texts(s).subrange(0, i + 1) =~= version_texts(s).subrange(
                                0,
                                i as int,
                            ).push(version_text(s[i as int].1)));
                        }
                        i = i + 1;
                    }
                    proof {
                        assert(version_texts(s).subrange(0, s.len() as int) =~= version_texts(s));
                    }
                    SurveyOutcome::Missing { requested: crate::text::owned(t), available }
                },
            }
        },
        None => {
            proof {
                crate::discovery::lemma_last_max_in_range(crate::discovery::versions_of(s));
            }
            match RubyRuntimeDetector::latest(installations) {
                Some(x) => SurveyOutcome::Latest(x),
                None => SurveyOutcome::Empty,
            }
        },
    }
}

/// The survey of a runtime's installations: an entry for each, in order,
/// and how the survey ends.
#[derive(Debug, Clone)]
pub struct RuntimeSurvey {
    pub entries: Vec<SurveyEntry>,
    pub outcome: SurveyOutcome,
}

/// `entries` has an entry for each installation, in order, for the home
/// directory `home`.
pub open spec fn surveyed_for(
    installations: Seq<RubyRuntime>,
    entries: Seq<SurveyEntry>,
    home: Option<Seq<char>>,
) -> bool {
    &&& entries.len() == installations.len()
    &&& forall|i: int|
        0 <= i < entries.len() ==> #[trigger] entries[i]@ == survey_entry_spec(
            installations[i]@,
            home,
        )
}

/// With the home directory known, every installation in the survey reports
/// the user's gem home, which lies inside the home directory; it is the
/// first gem directory, ahead of the Ruby's own lib gems directory, and its
/// `bin` is the first executable directory, ahead of the Ruby's own. Without
/// it, no installation reports a gem home and only the Ruby's own
/// directories are listed.
pub proof fn law_survey_reports_user_gems(
    installations: Seq<RubyRuntime>,
    entries: Seq<SurveyEntry>,
    home: Option<Seq<char>>,
)
    requires
        surveyed_for(installations, entries, home),
    ensures
        forall|i: int|
            0 <= i < entries.len() ==> match home {
                Some(h) => (#[trigger] entries[i]@).2 matches Some(g) && (h.is_prefix_of(g) && entries[i]@.3
                    == seq![g, lib_dir_of(installations[i]@)] && entries[i]@.4 == seq![
                    path_join(g, "bin"@),
                    path_join(installations[i].root@, "bin"@),
                ]),
                None => (#[trigger] entries[i]@).2 is None && entries[i]@.3 == seq![lib_dir_of(installations[i]@)]
                    && entries[i]@.4 == seq![path_join(installations[i].root@, "bin"@)],
            },
{
    assert forall|i: int| 0 <= i < entries.len() implies match home {
        Some(h) => (#[trigger] entries[i]@).2 matches Some(g) && (h.is_prefix_of(g) && entries[i]@.3 == seq![
            g,
            lib_dir_of(installations[i]@),
        ] && entries[i]@.4 == seq![path_join(g, "bin"@), path_join(installations[i].root@, "bin"@)]),
        None => (#[trigger] entries[i]@).2 is None && entries[i]@.3 == seq![lib_dir_of(installations[i]@)]
            && entries[i]@.4 == seq![path_join(installations[i].root@, "bin"@)],
    } by {
        if let Some(h) = home {
            law_user_gems_lie_in_home(h, installations[i].version@);
        }
    }
}

/// The survey of a runtime for a home directory.
pub fn runtime_survey_in_home(butler: &ButlerRuntime, home: Option<&str>) -> (r: RuntimeSurvey)
    ensures
        surveyed_for(
            butler.ruby_installations@,
            r.entries@,
            match home {
                Some(h) => Some(h@),
                None => None,
            },
        ),
        survey_outcome_holds(
            runtime_views(butler.ruby_installations@),
            butler@.requested,
            r.outcome,
        ),
{
    let list = &butler.ruby_installations;
    let mut entries: Vec<SurveyEntry> = Vec::new();
    let mut i: usize = 0;
    while i < list.len()
        invariant
            i <= list@.len(),
            list@ == butler.ruby_installations@,
            entries@.len() == i,
            forall|j: int|
                0 <= j < i ==> #[trigger] entries@[j]@ == survey_entry_spec(
                    list@[j]@,
                    match home {
                        Some(h) => Some(h@),
                        None => None,
                    },
                ),
        decreases list.len() - i,
    {
        entries.push(survey_entry(&list[i], home));
        i = i + 1;
    }
    let requested: Option<&str> = match &butler.requested_ruby_version {
        Some(t) => Some(t.as_str()),
        None => None,
    };
    let outcome = survey_outcome(list.as_slice(), requested);
    RuntimeSurvey { entries, outcome }
}

/// The survey of a runtime, for the home directory that `home::home_dir`
/// reports: every entry is for one and the same home (or for none).
pub fn runtime_survey(butler: &ButlerRuntime) -> (r: RuntimeSurvey)
    ensures
        exists|home: Option<Seq<char>>|
            #[trigger] surveyed_for(butler.ruby_installations@, r.entries@, home),
        survey_outcome_holds(
            runtime_views(butler.ruby_installations@),
            butler@.requested,
            r.outcome,
        ),
{
    let home = crate::user::home_dir();
    let r = match &home {
        Some(h) => runtime_survey_in_home(butler, Some(h.as_str())),
        None => runtime_survey_in_home(butler, None),
    };
    proof {
        let w: Option<Seq<char>> = match home {
            Some(h) => Some(h@),
            None => None,
        };
        assert(surveyed_for(butler.ruby_installations@, r.entries@, w));
    }
    r
}

} // verus!
