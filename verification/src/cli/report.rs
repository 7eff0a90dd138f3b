//! What `rb info env` reports: the fields of each section, with the tone in
//! which each value is shown. The program prints them.
use vstd::prelude::*;
use crate::bundler::{app_config_dir_of, vendor_dir_of, BundlerRuntime};
use crate::butler::{bin_dirs_spec, gem_dirs_spec, ButlerError, ButlerRuntime, ErrorView};
use crate::version_detector::{first_detected, RubyVersionDetector, VersionSources};
use crate::path::{file_name, path_file_name, path_join};
use crate::project::{
    lemma_scripts_map_dom, opt_text, script_keys, scripts_map, slice_texts, texts_sorted,
    unique_names, ProjectRuntime, ScriptDefinition,
};
use crate::ruby::RubyRuntime;
use crate::cli::help::{utf8_width, width_upto};
use crate::text::{concat, join_strings, joined, owned, views_of};
use crate::version::{decimal, decimal_text, opt_parts, version_text, RubyVersion, VersionParts};

verus! {

broadcast use vstd::seq_lib::group_to_multiset_ensures;

/// How a value is shown: muted, as good news, or as a warning.
#[derive(Debug, Clone, Copy, PartialEq, Eq, Structural)]
pub enum Tone {
    Muted,
    Good,
    Warning,
}

/// One `label: value` line of a report.
#[derive(Debug, Clone)]
pub struct Field {
    pub label: String,
    pub value: String,
    pub tone: Tone,
}

/// A field as plain values.
pub type FieldView = (Seq<char>, Seq<char>, Tone);

impl View for Field {
    type V = FieldView;

    open spec fn view(&self) -> FieldView {
        (self.label@, self.value@, self.tone)
    }
}

/// The views of a list of fields.
pub open spec fn fields_view(v: Seq<Field>) -> Seq<FieldView> {
    v.map_values(|f: Field| f@)
}

/// Appends a field.
fn push_field(v: &mut Vec<Field>, label: &str, value: String, tone: Tone)
    ensures
        fields_view(final(v)@) == fields_view(old(v)@).push((label@, value@, tone)),
{
    let f = Field { label: owned(label), value, tone };
    v.push(f);
    proof {
        assert(fields_view(final(v)@) =~= fields_view(old(v)@).push((label@, value@, tone)));
    }
}

/// Whether a bundle is in sync with its Gemfile, as far as is known.
#[derive(Debug, Clone, Copy, PartialEq, Eq, Structural)]
pub enum SyncStatus {
    Synchronized,
    OutOfSync,
    Unknown,
}

/// The sync status of a bundle: out of sync until it is configured; then
/// what `bundle check` said, or unknown when the check failed to run.
pub open spec fn sync_status_spec(configured: bool, check: Option<bool>) -> SyncStatus {
    if !configured {
        SyncStatus::OutOfSync
    } else {
        match check {
            Some(true) => SyncStatus::Synchronized,
            Some(false) => SyncStatus::OutOfSync,
            None => SyncStatus::Unknown,
        }
    }
}

/// The sync status (see [`sync_status_spec`]).
pub fn sync_status(configured: bool, check: Option<bool>) -> (r: SyncStatus)
    ensures
        r == sync_status_spec(configured, check),
{
    if !configured {
        SyncStatus::OutOfSync
    } else {
        match check {
            Some(true) => SyncStatus::Synchronized,
            Some(false) => SyncStatus::OutOfSync,
            None => SyncStatus::Unknown,
        }
    }
}

/// The field a sync status is shown as.
pub open spec fn sync_field(s: SyncStatus) -> FieldView {
    match s {
        SyncStatus::Synchronized => ("Synchronized"@, "✅ Synchronized"@, Tone::Good),
        SyncStatus::OutOfSync => ("Synchronized"@, "⚠️  Out of sync"@, Tone::Warning),
        SyncStatus::Unknown => ("Synchronized"@, "❓ Unknown"@, Tone::Muted),
    }
}

/// The Ruby section: the installation, the gem home (or that there is
/// none), and the gem and executable directories when there are any, each
/// list joined with `, `.
pub open spec fn ruby_fields_spec(
    root: Seq<char>,
    gem_home: Option<Seq<char>>,
    gem_dirs: Seq<Seq<char>>,
    bin_dirs: Seq<Seq<char>>,
) -> Seq<FieldView> {
    let head = seq![
        ("Installation"@, root, Tone::Muted),
        match gem_home {
            Some(h) => ("Gem home"@, h, Tone::Muted),
            None => ("Gem home"@, "Not available"@, Tone::Warning),
        },
    ];
    let with_gems = if gem_dirs.len() > 0 {
        head.push(("Gem libraries"@, joined(gem_dirs, ", "@), Tone::Muted))
    } else {
        head
    };
    if bin_dirs.len() > 0 {
        with_gems.push(("Executable paths"@, joined(bin_dirs, ", "@), Tone::Muted))
    } else {
        with_gems
    }
}

/// The Ruby section (see [`ruby_fields_spec`]).
pub fn ruby_fields(ruby: &RubyRuntime, gem_home: Option<&String>, gem_dirs: &Vec<String>, bin_dirs: &Vec<
    String,
>) -> (r: Vec<Field>)
    ensures
        fields_view(r@) == ruby_fields_spec(
            ruby.root@,
            match gem_home {
                Some(h) => Some(h@),
                None => None,
            },
            views_of(gem_dirs@),
            views_of(bin_dirs@),
        ),
{
    let mut v: Vec<Field> = Vec::new();
    push_field(&mut v, "Installation", ruby.root.clone(), Tone::Muted);
    match gem_home {
        Some(h) => push_field(&mut v, "Gem home", h.clone(), Tone::Muted),
        None => push_field(&mut v, "Gem home", owned("Not available"), Tone::Warning),
    }
    if gem_dirs.len() > 0 {
        let j = join_strings(gem_dirs.as_slice(), ", ");
        push_field(&mut v, "Gem libraries", j, Tone::Muted);
    }
    if bin_dirs.len() > 0 {
        let j = join_strings(bin_dirs.as_slice(), ", ");
        push_field(&mut v, "Executable paths", j, Tone::Muted);
    }
    proof {
        assert(fields_view(v@) =~= ruby_fields_spec(
            ruby.root@,
            match gem_home {
                Some(h) => Some(h@),
                None => None,
            },
            views_of(gem_dirs@),
            views_of(bin_dirs@),
        ));
    }
    v
}

/// The Bundler section: the project's root, Gemfile, config and vendor
/// directories, the Ruby version it asks for (when it names one), whether
/// the bundle is configured, and its sync status.
pub open spec fn bundler_fields_spec(
    root: Seq<char>,
    required: Option<VersionParts>,
    configured: bool,
    status: SyncStatus,
) -> Seq<FieldView> {
    let head = seq![
        ("Bundler root"@, root, Tone::Muted),
        ("Gemfile"@, path_join(root, "Gemfile"@), Tone::Muted),
        ("App config"@, app_config_dir_of(root), Tone::Muted),
        ("Vendor directory"@, vendor_dir_of(root), Tone::Muted),
    ];
    let with_required = match required {
        Some(v) => head.push(("Required Ruby"@, version_text(v), Tone::Muted)),
        None => head,
    };
    with_required.push(
        if configured {
            ("Configured"@, "Yes"@, Tone::Good)
        } else {
            ("Configured"@, "No"@, Tone::Warning)
        },
    ).push(sync_field(status))
}

/// The Bundler section (see [`bundler_fields_spec`]).
pub fn bundler_fields(
    bundler: &BundlerRuntime,
    required: Option<&RubyVersion>,
    configured: bool,
    status: SyncStatus,
) -> (r: Vec<Field>)
    ensures
        fields_view(r@) == bundler_fields_spec(
            bundler.root@,
            match required {
                Some(v) => Some(v@),
                None => None,
            },
            configured,
            status,
        ),
{
    let mut v: Vec<Field> = Vec::new();
    push_field(&mut v, "Bundler root", bundler.root.clone(), Tone::Muted);
    push_field(&mut v, "Gemfile", bundler.gemfile_path(), Tone::Muted);
    push_field(&mut v, "App config", bundler.app_config_dir(), Tone::Muted);
    push_field(&mut v, "Vendor directory", bundler.vendor_dir(), Tone::Muted);
    match required {
        Some(rv) => push_field(&mut v, "Required Ruby", rv.to_text(), Tone::Muted),
        None => {},
    }
    if configured {
        push_field(&mut v, "Configured", owned("Yes"), Tone::Good);
    } else {
        push_field(&mut v, "Configured", owned("No"), Tone::Warning);
    }
    match status {
        SyncStatus::Synchronized => push_field(
            &mut v,
            "Synchronized",
            owned("✅ Synchronized"),
            Tone::Good,
        ),
        SyncStatus::OutOfSync => push_field(
            &mut v,
            "Synchronized",
            owned("⚠️  Out of sync"),
            Tone::Warning,
        ),
        SyncStatus::Unknown => push_field(&mut v, "Synchronized", owned("❓ Unknown"), Tone::Muted),
    }
    proof {
        assert(fields_view(v@) =~= bundler_fields_spec(
            bundler.root@,
            match required {
                Some(x) => Some(x@),
                None => None,
            },
            configured,
            status,
        ));
    }
    v
}

/// A script as a listing shows it: its name, command and description.
#[derive(Debug, Clone)]
pub struct ScriptEntry {
    pub name: String,
    pub command: String,
    pub description: Option<String>,
}

/// The names of a list of script entries.
pub open spec fn entry_names(v: Seq<ScriptEntry>) -> Seq<Seq<char>> {
    v.map_values(|e: ScriptEntry| e.name@)
}

/// `entries` lists the scripts of `scripts` ordered by name, each with its
/// command and description.
pub open spec fn lists_scripts(scripts: Seq<(String, ScriptDefinition)>, entries: Seq<ScriptEntry>) -> bool {
    &&& texts_sorted(entry_names(entries))
    &&& entry_names(entries).to_multiset() == script_keys(scripts).to_multiset()
    &&& forall|i: int|
        0 <= i < entries.len() ==> scripts_map(scripts).contains_key(#[trigger] entries[i].name@)
            && scripts_map(scripts)[entries[i].name@].0 == entries[i].command@
            && scripts_map(scripts)[entries[i].name@].1 == opt_text(entries[i].description)
}

/// The scripts of a project, ordered by name, each with its command and
/// description.
pub fn script_entries(project: &ProjectRuntime) -> (r: Vec<ScriptEntry>)
    requires
        unique_names(project.scripts@),
    ensures
        lists_scripts(project.scripts@, r@),
{
    let names = project.script_names();
    let ghost all = slice_texts(names@);
    let mut out: Vec<ScriptEntry> = Vec::new();
    let mut i: usize = 0;
    proof {
        lemma_scripts_map_dom(project.scripts@);
        assert(entry_names(out@) =~= all.subrange(0, 0));
    }
    while i < names.len()
        invariant
            i <= names@.len(),
            all == slice_texts(names@),
            unique_names(project.scripts@),
            all.to_multiset() == script_keys(project.scripts@).to_multiset(),
            forall|k: Seq<char>|
                #[trigger] scripts_map(project.scripts@).contains_key(k) <==> script_keys(
                    project.scripts@,
                ).contains(k),
            entry_names(out@) == all.subrange(0, i as int),
            forall|j: int|
                0 <= j < out@.len() ==> scripts_map(project.scripts@).contains_key(
                    #[trigger] out@[j].name@,
                ) && scripts_map(project.scripts@)[out@[j].name@].0 == out@[j].command@
                    && scripts_map(project.scripts@)[out@[j].name@].1 == opt_text(out@[j].description),
        decreases names.len() - i,
    {
        let name: &str = names[i];
        proof {
            assert(all[i as int] == name@);
            assert(all.contains(name@));
            assert(all.to_multiset().count(name@) > 0);
            assert(script_keys(project.scripts@).contains(name@));
        }
        match project.get_script(name) {
            Some(d) => {
                let description = match d.description() {
                    Some(t) => Some(owned(t)),
                    None => None,
                };
                let e = ScriptEntry { name: owned(name), command: owned(d.command()), description };
                let ghost before = out@;
                out.push(e);
                proof {
                    assert(entry_names(out@) =~= entry_names(before).push(name@));
                    assert(all.subrange(0, i + 1) =~= all.subrange(0, i as int).push(name@));
                }
            },
            None => {
                proof {
                    assert(false);
                }
            },
        }
        i = i + 1;
    }
    proof {
        assert(all.subrange(0, names@.len() as int) =~= all);
    }
    out
}

/// The project section: its name and description when it has them, the
/// path of its config file and how many scripts it defines.
pub open spec fn project_fields_spec(
    name: Option<Seq<char>>,
    description: Option<Seq<char>>,
    path: Seq<char>,
    count: nat,
) -> Seq<FieldView> {
    let named = match name {
        Some(n) => seq![("Name"@, n, Tone::Muted)],
        None => Seq::empty(),
    };
    let described = match description {
        Some(d) => named.push(("Description"@, d, Tone::Muted)),
        None => named,
    };
    described.push(("Project file"@, path, Tone::Muted)).push(
        ("Scripts loaded"@, decimal(count), Tone::Muted),
    )
}

/// The project section (see [`project_fields_spec`]).
pub fn project_fields(project: &ProjectRuntime) -> (r: Vec<Field>)
    ensures
        fields_view(r@) == project_fields_spec(
            opt_text(project.metadata.name),
            opt_text(project.metadata.description),
            path_join(project.root@, project.config_filename@),
            project.scripts@.len(),
        ),
{
    let mut v: Vec<Field> = Vec::new();
    match &project.metadata.name {
        Some(n) => push_field(&mut v, "Name", n.clone(), Tone::Muted),
        None => {},
    }
    match &project.metadata.description {
        Some(d) => push_field(&mut v, "Description", d.clone(), Tone::Muted),
        None => {},
    }
    push_field(&mut v, "Project file", project.rbproject_path(), Tone::Muted);
    let count = decimal_text(project.scripts.len() as u64);
    push_field(&mut v, "Scripts loaded", count, Tone::Muted);
    proof {
        assert(fields_view(v@) =~= project_fields_spec(
            opt_text(project.metadata.name),
            opt_text(project.metadata.description),
            path_join(project.root@, project.config_filename@),
            project.scripts@.len(),
        ));
    }
    v
}

/// The summary: the active Ruby and, in a Bundler project, the project's
/// name and whether the Ruby matches the version the project asks for.
pub open spec fn summary_fields_spec(
    ruby: VersionParts,
    bundler_root: Option<Seq<char>>,
    required: Option<VersionParts>,
) -> Seq<FieldView> {
    let active = seq![("Active Ruby"@, "CRuby "@ + version_text(ruby), Tone::Muted)];
    match bundler_root {
        Some(root) => {
            let named = active.push(
                (
                    "Bundler project"@,
                    match path_file_name(root) {
                        Some(n) => n,
                        None => Seq::empty(),
                    },
                    Tone::Muted,
                ),
            );
            match required {
                Some(v) => named.push(
                    if v == ruby {
                        ("Version match"@, "✅ Matches"@, Tone::Good)
                    } else {
                        ("Version match"@, "⚠️  Mismatch"@, Tone::Warning)
                    },
                ),
                None => named,
            }
        },
        None => active,
    }
}

/// The summary (see [`summary_fields_spec`]).
pub fn summary_fields(ruby: &RubyRuntime, bundler_root: Option<&String>, required: Option<&RubyVersion>) -> (r:
    Vec<Field>)
    ensures
        fields_view(r@) == summary_fields_spec(
            ruby.version@,
            match bundler_root {
                Some(b) => Some(b@),
                None => None,
            },
            match required {
                Some(v) => Some(v@),
                None => None,
            },
        ),
{
    let mut v: Vec<Field> = Vec::new();
    let t = ruby.version.to_text();
    push_field(&mut v, "Active Ruby", concat("CRuby ", t.as_str()), Tone::Muted);
    match bundler_root {
        Some(root) => {
            let name = match file_name(root.as_str()) {
                Some(n) => n,
                None => String::new(),
            };
            push_field(&mut v, "Bundler project", name, Tone::Muted);
            match required {
                Some(rv) => {
                    if rv.same_as(&ruby.version) {
                        push_field(&mut v, "Version match", owned("✅ Matches"), Tone::Good);
                    } else {
                        push_field(&mut v, "Version match", owned("⚠️  Mismatch"), Tone::Warning);
                    }
                },
                None => {},
            }
        },
        None => {},
    }
    proof {
        assert(fields_view(v@) =~= summary_fields_spec(
            ruby.version@,
            match bundler_root {
                Some(b) => Some(b@),
                None => None,
            },
            match required {
                Some(x) => Some(x@),
                None => None,
            },
        ));
    }
    v
}

/// The project part of a report: its fields and its scripts.
#[derive(Debug, Clone)]
pub struct ProjectReport {
    pub fields: Vec<Field>,
    pub scripts: Vec<ScriptEntry>,
}

/// The report of `rb info env`: the selected Ruby's version and fields, the
/// Bundler section when a project is in effect, the project section when a
/// project config was found, and the summary.
#[derive(Debug, Clone)]
pub struct EnvironmentReport {
    pub ruby_version: String,
    pub ruby: Vec<Field>,
    pub bundler: Option<Vec<Field>>,
    pub project: Option<ProjectReport>,
    pub summary: Vec<Field>,
}

/// The Ruby version a Bundler project asks for, from the texts of its
/// `.ruby-version` and Gemfile.
pub open spec fn required_version(sources: VersionSources) -> Option<VersionParts> {
    first_detected(seq![RubyVersionDetector::RubyVersionFile, RubyVersionDetector::Gemfile], sources)
}

/// Reports the environment of a runtime (see [`EnvironmentReport`]):
/// `bundler_configured` tells whether the bundle's vendor directory exists,
/// `bundler_sources` holds the version files of the Bundler project, and
/// `sync_check` what `bundle check` said (`None` when it could not run).
/// Without a selected Ruby it is the error of
/// [`ButlerRuntime::selected_ruby`].
pub fn environment_report(
    butler: &ButlerRuntime,
    bundler_configured: bool,
    bundler_sources: &VersionSources,
    sync_check: Option<bool>,
    project: Option<&ProjectRuntime>,
) -> (r: Result<EnvironmentReport, ButlerError>)
    requires
        project matches Some(p) ==> unique_names(p.scripts@),
    ensures
        butler.ruby_runtime is None ==> (r matches Err(e) && e@ == ErrorView::NoSuitableRuby(
            "No Ruby installation available. Please install Ruby first."@,
        )),
        butler.ruby_runtime matches Some(ruby) ==> (r matches Ok(rep) && {
            &&& rep.ruby_version@ == version_text(ruby.version@)
            &&& fields_view(rep.ruby@) == ruby_fields_spec(
                ruby.root@,
                match butler@.gems {
                    Some(g) => Some(g.0),
                    None => None,
                },
                gem_dirs_spec(butler@, bundler_configured),
                bin_dirs_spec(butler@, bundler_configured),
            )
            &&& match butler.bundler_runtime {
                Some(b) => rep.bundler matches Some(f) && fields_view(f@) == bundler_fields_spec(
                    b.root@,
                    required_version(*bundler_sources),
                    bundler_configured,
                    sync_status_spec(bundler_configured, sync_check),
                ),
                None => rep.bundler is None,
            }
            &&& match project {
                Some(p) => rep.project matches Some(pr) && fields_view(pr.fields@)
                    == project_fields_spec(
                    opt_text(p.metadata.name),
                    opt_text(p.metadata.description),
                    path_join(p.root@, p.config_filename@),
                    p.scripts@.len(),
                ) && lists_scripts(p.scripts@, pr.scripts@),
                None => rep.project is None,
            }
            &&& fields_view(rep.summary@) == summary_fields_spec(
                ruby.version@,
                match butler.bundler_runtime {
                    Some(b) => Some(b.root@),
                    None => None,
                },
                match butler.bundler_runtime {
                    Some(_) => required_version(*bundler_sources),
                    None => None,
                },
            )
        }),
{
    let ruby = match butler.selected_ruby() {
        Ok(x) => x,
        Err(e) => {
            return Err(e);
        },
    };
    let gem_home: Option<&String> = match &butler.gem_runtime {
        Some(g) => Some(&g.gem_home),
        None => None,
    };
    let gem_dirs = butler.gem_dirs(bundler_configured);
    let bin_dirs = butler.bin_dirs(bundler_configured);
    let ruby_section = ruby_fields(ruby, gem_home, &gem_dirs, &bin_dirs);
    let (bundler_section, summary) = match &butler.bundler_runtime {
        Some(b) => {
            let required = b.ruby_version_from(bundler_sources);
            let status = sync_status(bundler_configured, sync_check);
            let f = bundler_fields(b, required.as_ref(), bundler_configured, status);
            let s = summary_fields(ruby, Some(&b.root), required.as_ref());
            (Some(f), s)
        },
        None => (None, summary_fields(ruby, None, None)),
    };
    let project_section = match project {
        Some(p) => Some(ProjectReport { fields: project_fields(p), scripts: script_entries(p) }),
        None => None,
    };
    Ok(
        EnvironmentReport {
            ruby_version: ruby.version.to_text(),
            ruby: ruby_section,
            bundler: bundler_section,
            project: project_section,
            summary,
        },
    )
}

/// What a script listing shows beside a name: the description, else the
/// command.
pub open spec fn shown_text(e: ScriptEntry) -> Seq<char> {
    match e.description {
        Some(d) => d@,
        None => e.command@,
    }
}

/// The widest UTF-8 length (`str::len`) among names, counted up to
/// `usize::MAX`; 0 for no names.
pub open spec fn widest(names: Seq<Seq<char>>) -> nat
    decreases names.len(),
{
    if names.len() == 0 {
        0
    } else {
        let w = widest(names.drop_last());
        let x = if utf8_width(names.last()) < usize::MAX {
            utf8_width(names.last())
        } else {
            usize::MAX as nat
        };
        if x > w {
            x
        } else {
            w
        }
    }
}

/// The scripts of `rb run` without a script name: ordered by name, the text
/// shown beside each, and the width the names are aligned to.
#[derive(Debug, Clone)]
pub struct ScriptListing {
    pub scripts: Vec<ScriptEntry>,
    pub shown: Vec<String>,
    pub name_width: usize,
}

/// The script listing of a project (see [`ScriptListing`]).
pub fn script_listing(project: &ProjectRuntime) -> (r: ScriptListing)
    requires
        unique_names(project.scripts@),
    ensures
        lists_scripts(project.scripts@, r.scripts@),
        r.shown@.len() == r.scripts@.len(),
        forall|i: int| 0 <= i < r.shown@.len() ==> #[trigger] r.shown@[i]@ == shown_text(r.scripts@[i]),
        r.name_width == widest(entry_names(r.scripts@)),
{
    let scripts = script_entries(project);
    let mut shown: Vec<String> = Vec::new();
    let mut width: usize = 0;
    let mut i: usize = 0;
    proof {
        assert(entry_names(scripts@).subrange(0, 0) =~= Seq::<Seq<char>>::empty());
    }
    while i < scripts.len()
        invariant
            i <= scripts@.len(),
            shown@.len() == i,
            forall|j: int| 0 <= j < i ==> #[trigger] shown@[j]@ == shown_text(scripts@[j]),
            width == widest(entry_names(scripts@).subrange(0, i as int)),
        decreases scripts.len() - i,
    {
        let e = &scripts[i];
        let t = match &e.description {
            Some(d) => d.clone(),
            None => e.command.clone(),
        };
        shown.push(t);
        let w = width_upto(e.name.as_str(), usize::MAX);
        proof {
            let names = entry_names(scripts@);
            assert(names.subrange(0, i + 1).drop_last() =~= names.subrange(0, i as int));
            assert(names.subrange(0, i + 1).last() == e.name@);
        }
        if w > width {
            width = w;
        }
        i = i + 1;
    }
    proof {
        assert(entry_names(scripts@).subrange(0, scripts@.len() as int) =~= entry_names(scripts@));
    }
    ScriptListing { scripts, shown, name_width: width }
}

} // verus!
