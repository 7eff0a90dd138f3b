use ruby_butler::butler::{ButlerError, ButlerRuntime, DiscoveryInputs};
use ruby_butler::cli::report::{
    environment_report, script_listing, sync_status, Field, SyncStatus, Tone,
};
use ruby_butler::cli::survey::{runtime_survey_in_home, survey_entry, survey_outcome, SurveyOutcome};
use ruby_butler::discovery::{DirListing, EntryRead};
use ruby_butler::gems::GemRuntime;
use ruby_butler::project::{ProjectMetadata, ProjectRuntime, ScriptDefinition};
use ruby_butler::ruby::{RubyRuntime, RubyType};
use ruby_butler::version::RubyVersion;
use ruby_butler::version_detector::VersionSources;

fn v(text: &str) -> RubyVersion {
    RubyVersion::parse(text).unwrap()
}

fn rt(ver: &str, root: &str) -> RubyRuntime {
    RubyRuntime::new(RubyType::CRuby, v(ver), root)
}

fn pairs(fields: &[Field]) -> Vec<(String, String, Tone)> {
    fields.iter().map(|f| (f.label.clone(), f.value.clone(), f.tone)).collect()
}

fn p(label: &str, value: &str, tone: Tone) -> (String, String, Tone) {
    (label.to_string(), value.to_string(), tone)
}

fn no_sources() -> VersionSources {
    VersionSources { ruby_version_file: None, gemfile: None }
}

fn project(scripts: Vec<(&str, ScriptDefinition)>) -> ProjectRuntime {
    ProjectRuntime::new(
        "/work/app",
        "rbproject.toml",
        ProjectMetadata { name: Some("Demo".to_string()), description: None },
        scripts.into_iter().map(|(n, d)| (n.to_string(), d)).collect(),
    )
}

#[test]
fn sync_status_decisions() {
    assert_eq!(sync_status(false, Some(true)), SyncStatus::OutOfSync);
    assert_eq!(sync_status(true, Some(true)), SyncStatus::Synchronized);
    assert_eq!(sync_status(true, Some(false)), SyncStatus::OutOfSync);
    assert_eq!(sync_status(true, None), SyncStatus::Unknown);
}

#[test]
fn environment_report_without_bundler_or_project() {
    let ruby = rt("3.2.1", "/opt/ruby-3.2.1");
    let gems = GemRuntime::for_base_dir("/home/u/.gem", &ruby.version);
    let butler = ButlerRuntime::new(ruby, Some(gems), "/work");
    let report = environment_report(&butler, false, &no_sources(), None, None).unwrap();
    assert_eq!(report.ruby_version, "3.2.1");
    assert_eq!(
        pairs(&report.ruby),
        vec![
            p("Installation", "/opt/ruby-3.2.1", Tone::Muted),
            p("Gem home", "/home/u/.gem/ruby/3.2.1", Tone::Muted),
            p("Gem libraries", "/home/u/.gem/ruby/3.2.1, /opt/ruby-3.2.1/lib/ruby/gems/3.2.0", Tone::Muted),
            p("Executable paths", "/home/u/.gem/ruby/3.2.1/bin, /opt/ruby-3.2.1/bin", Tone::Muted),
        ]
    );
    assert!(report.bundler.is_none());
    assert!(report.project.is_none());
    assert_eq!(pairs(&report.summary), vec![p("Active Ruby", "CRuby 3.2.1", Tone::Muted)]);
}

#[test]
fn environment_report_without_ruby_is_an_error() {
    let butler = ButlerRuntime::empty("/rubies", "/work");
    match environment_report(&butler, false, &no_sources(), None, None) {
        Err(ButlerError::NoSuitableRuby(m)) => {
            assert_eq!(m, "No Ruby installation available. Please install Ruby first.")
        }
        _ => panic!("expected NoSuitableRuby"),
    }
}

#[test]
fn environment_report_with_bundler_and_project() {
    let inputs = DiscoveryInputs {
        rubies_listing: DirListing::Read(vec![EntryRead::Entry { name: "ruby-3.3.0".to_string(), is_dir: true }]),
        bundler_root: Some("/work/app".to_string()),
        version_sources: no_sources(),
        home_dir: Some("/home/u".to_string()),
    };
    let butler =
        ButlerRuntime::discover_and_compose_with_current_dir("/rubies", None, None, false, "/work/app", &inputs)
            .unwrap();
    let sources = VersionSources { ruby_version_file: Some("3.2.0\n".to_string()), gemfile: None };
    let proj = project(vec![
        ("test", ScriptDefinition::Simple("rspec".to_string())),
        (
            "lint",
            ScriptDefinition::Detailed { command: "rubocop".to_string(), description: Some("Style".to_string()) },
        ),
    ]);
    let report = environment_report(&butler, true, &sources, Some(true), Some(&proj)).unwrap();
    assert_eq!(
        pairs(report.bundler.as_ref().unwrap()),
        vec![
            p("Bundler root", "/work/app", Tone::Muted),
            p("Gemfile", "/work/app/Gemfile", Tone::Muted),
            p("App config", "/work/app/.rb", Tone::Muted),
            p("Vendor directory", "/work/app/.rb/vendor/bundler", Tone::Muted),
            p("Required Ruby", "3.2.0", Tone::Muted),
            p("Configured", "Yes", Tone::Good),
            p("Synchronized", "✅ Synchronized", Tone::Good),
        ]
    );
    assert_eq!(
        pairs(&report.summary),
        vec![
            p("Active Ruby", "CRuby 3.3.0", Tone::Muted),
            p("Bundler project", "app", Tone::Muted),
            p("Version match", "⚠️  Mismatch", Tone::Warning),
        ]
    );
    let project_report = report.project.unwrap();
    assert_eq!(
        pairs(&project_report.fields),
        vec![
            p("Name", "Demo", Tone::Muted),
            p("Project file", "/work/app/rbproject.toml", Tone::Muted),
            p("Scripts loaded", "2", Tone::Muted),
        ]
    );
    let names: Vec<String> = project_report.scripts.iter().map(|e| e.name.clone()).collect();
    assert_eq!(names, vec!["lint".to_string(), "test".to_string()]);
    assert_eq!(project_report.scripts[0].description, Some("Style".to_string()));
    assert_eq!(project_report.scripts[1].command, "rspec");
}

#[test]
fn script_listing_aligns_names_and_prefers_descriptions() {
    let proj = project(vec![
        ("test", ScriptDefinition::Simple("rspec".to_string())),
        (
            "lint-all",
            ScriptDefinition::Detailed { command: "rubocop".to_string(), description: Some("Style".to_string()) },
        ),
    ]);
    let listing = script_listing(&proj);
    assert_eq!(listing.name_width, 8);
    assert_eq!(listing.scripts[0].name, "lint-all");
    assert_eq!(listing.shown, vec!["Style".to_string(), "rspec".to_string()]);

    let empty = script_listing(&project(vec![]));
    assert_eq!(empty.name_width, 0);
    assert!(empty.scripts.is_empty());
}

#[test]
fn survey_entries_with_and_without_home() {
    let ruby = rt("3.4.1", "/r/ruby-3.4.1");
    let with_home = survey_entry(&ruby, Some("/home/u"));
    assert_eq!(with_home.version, "3.4.1");
    assert_eq!(with_home.gem_home, Some("/home/u/.gem/ruby/3.4.1".to_string()));
    assert_eq!(with_home.gem_dirs, vec!["/home/u/.gem/ruby/3.4.1".to_string(), "/r/ruby-3.4.1/lib/ruby/gems/3.4.0".to_string()]);
    assert_eq!(with_home.bin_dirs, vec!["/home/u/.gem/ruby/3.4.1/bin".to_string(), "/r/ruby-3.4.1/bin".to_string()]);

    let without = survey_entry(&ruby, None);
    assert_eq!(without.gem_home, None);
    assert_eq!(without.gem_dirs, vec!["/r/ruby-3.4.1/lib/ruby/gems/3.4.0".to_string()]);
    assert_eq!(without.bin_dirs, vec!["/r/ruby-3.4.1/bin".to_string()]);
}

#[test]
fn survey_outcomes() {
    let list = vec![rt("3.1.0", "/r/ruby-3.1.0"), rt("3.3.0", "/r/ruby-3.3.0"), rt("3.2.0", "/r/ruby-3.2.0")];
    match survey_outcome(&list, Some("3.2.0")) {
        SurveyOutcome::Requested(r) => assert_eq!(r.root, "/r/ruby-3.2.0"),
        _ => panic!("expected the requested version"),
    }
    match survey_outcome(&list, None) {
        SurveyOutcome::Latest(r) => assert_eq!(r.version, v("3.3.0")),
        _ => panic!("expected the latest"),
    }
    match survey_outcome(&list, Some("9.9.9")) {
        SurveyOutcome::Missing { requested, available } => {
            assert_eq!(requested, "9.9.9");
            assert_eq!(available, vec!["3.1.0".to_string(), "3.3.0".to_string(), "3.2.0".to_string()]);
        }
        _ => panic!("expected a missing version"),
    }
    match survey_outcome(&list, Some("3.2")) {
        SurveyOutcome::Missing { .. } => {}
        _ => panic!("an unparsable request that no version reads is missing"),
    }
    assert!(matches!(survey_outcome(&[], None), SurveyOutcome::Empty));
}

#[test]
fn runtime_survey_covers_every_installation() {
    let inputs = DiscoveryInputs {
        rubies_listing: DirListing::Read(vec![
            EntryRead::Entry { name: "ruby-3.1.0".to_string(), is_dir: true },
            EntryRead::Entry { name: "ruby-3.2.0".to_string(), is_dir: true },
        ]),
        bundler_root: None,
        version_sources: no_sources(),
        home_dir: Some("/home/u".to_string()),
    };
    let butler = ButlerRuntime::discover_and_compose_with_current_dir(
        "/rubies",
        Some("3.1.0".to_string()),
        None,
        false,
        "/work",
        &inputs,
    )
    .unwrap();
    let survey = runtime_survey_in_home(&butler, Some("/home/u"));
    assert_eq!(survey.entries.len(), 2);
    assert_eq!(survey.entries[0].version, "3.2.0");
    match survey.outcome {
        SurveyOutcome::Requested(r) => assert_eq!(r.version, v("3.1.0")),
        _ => panic!("expected the requested version"),
    }
}

fn discovered(versions: &[&str]) -> ButlerRuntime {
    let inputs = DiscoveryInputs {
        rubies_listing: DirListing::Read(
            versions
                .iter()
                .map(|n| EntryRead::Entry { name: format!("ruby-{}", n), is_dir: true })
                .collect(),
        ),
        bundler_root: None,
        version_sources: no_sources(),
        home_dir: Some("/home/u".to_string()),
    };
    ButlerRuntime::discover_and_compose_with_current_dir("/sandbox", None, None, false, "/work", &inputs)
        .unwrap()
}

#[test]
fn environment_command_exists() {
    let butler = discovered(&["3.2.5"]);
    let report = environment_report(&butler, false, &no_sources(), None, None).unwrap();
    assert_eq!(report.ruby_version, "3.2.5");
}

#[test]
fn present_environment_details_handles_no_bundler() {
    let ruby = rt("3.2.5", "/sandbox/ruby-3.2.5");
    let gem_runtime = GemRuntime::for_base_dir("/sandbox/.gem", &ruby.version);
    let butler = ButlerRuntime::new(ruby, Some(gem_runtime), "/work");
    let report = environment_report(&butler, false, &no_sources(), None, None).unwrap();
    assert!(report.bundler.is_none());
    assert_eq!(report.ruby[1].value, "/sandbox/.gem/ruby/3.2.5");
}

#[test]
fn present_environment_details_with_bundler() {
    let ruby = rt("3.2.5", "/sandbox/ruby-3.2.5");
    let gem_runtime = GemRuntime::for_base_dir("/sandbox/.gem", &ruby.version);
    let mut butler = ButlerRuntime::new(ruby.clone(), Some(gem_runtime), "/work");
    butler.bundler_runtime =
        Some(ruby_butler::bundler::BundlerRuntime::new("/bundles/test-app", ruby.version.clone()));
    let report = environment_report(&butler, true, &no_sources(), Some(false), None).unwrap();
    let bundler = report.bundler.unwrap();
    assert_eq!(bundler[0].value, "/bundles/test-app");
    assert_eq!(bundler.last().unwrap().value, "⚠️  Out of sync");
    assert_eq!(report.summary[1].value, "test-app");
}

#[test]
fn present_environment_details_with_project() {
    let ruby = rt("3.2.5", "/sandbox/ruby-3.2.5");
    let gem_runtime = GemRuntime::for_base_dir("/sandbox/.gem", &ruby.version);
    let butler = ButlerRuntime::new(ruby, Some(gem_runtime), "/work");
    let proj = ProjectRuntime::new(
        "/sandbox",
        "rbproject.toml",
        ProjectMetadata::default(),
        vec![
            (
                "test".to_string(),
                ScriptDefinition::Detailed {
                    command: "rspec".to_string(),
                    description: Some("Run the test suite".to_string()),
                },
            ),
            ("lint:fix".to_string(), ScriptDefinition::Simple("rubocop -a".to_string())),
        ],
    );
    let report = environment_report(&butler, false, &no_sources(), None, Some(&proj)).unwrap();
    let project_report = report.project.unwrap();
    assert_eq!(project_report.scripts.len(), 2);
    assert_eq!(project_report.scripts[0].name, "lint:fix");
    assert_eq!(project_report.fields.last().unwrap().value, "2");
}

#[test]
fn test_runtime_command_with_directory() {
    let butler = discovered(&["3.2.5"]);
    let survey = runtime_survey_in_home(&butler, Some("/home/u"));
    assert_eq!(survey.entries.len(), 1);
    match survey.outcome {
        SurveyOutcome::Latest(r) => assert_eq!(r.root, "/sandbox/ruby-3.2.5"),
        _ => panic!("expected the latest installation"),
    }
}

#[test]
fn test_exec_command_with_empty_args() {
    let _butler = discovered(&["3.2.5"]);
    let empty_args: Vec<String> = vec![];
    assert_eq!(ruby_butler::cli::run::split_program(&empty_args), None);
}
