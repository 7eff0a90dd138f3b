use ruby_butler::bundler::BundlerRuntime;
use ruby_butler::butler::{ButlerError, ButlerRuntime};
use ruby_butler::butler::select_ruby_runtime;
use ruby_butler::cli::completion::{script_name_suggestions, scripts_table_keys};
use ruby_butler::cli::errors::{error_report, format_rubies_dir_not_found};
use ruby_butler::cli::run::project_for_run;
use ruby_butler::config::value::ConfigValue;
use ruby_butler::command::Command;
use ruby_butler::config::settings::{ConfigEnvironment, RbConfig, TrackedConfig};
use ruby_butler::config::value::ConfigSource;
use ruby_butler::gem_paths::{GemPathContext, UserGemsDetector};
use ruby_butler::project::{parse_kdl, project_from_document, ProjectMetadata, ProjectRuntime, ScriptDefinition};
use ruby_butler::ruby::{RubyRuntime, RubyType};
use ruby_butler::version::RubyVersion;

fn ruby(version: &str, root: &str) -> RubyRuntime {
    RubyRuntime::new(RubyType::CRuby, RubyVersion::parse(version).unwrap(), root)
}

fn script<'a>(scripts: &'a [(String, ScriptDefinition)], name: &str) -> &'a ScriptDefinition {
    &scripts.iter().find(|(n, _)| n == name).unwrap().1
}

#[test]
fn environment_overrides_config_file() {
    let file = RbConfig { ruby_version: Some("3.3.0".to_string()), ..RbConfig::default() };
    let env = ConfigEnvironment { ruby_version: Some("3.2.0".to_string()), ..ConfigEnvironment::default() };
    let settings = TrackedConfig::from_merged(&RbConfig::default(), &file, &env);
    let version = settings.ruby_version.unwrap();
    assert_eq!(version.value, "3.2.0");
    assert_eq!(version.source, ConfigSource::EnvVar);
}

#[test]
fn config_file_overrides_defaults_and_command_line_overrides_environment() {
    let cli = RbConfig { gem_home: Some("/cli/gems".to_string()), ..RbConfig::default() };
    let file = RbConfig {
        rubies_dir: Some("/file/rubies".to_string()),
        gem_home: Some("/file/gems".to_string()),
        no_bundler: Some(true),
        ..RbConfig::default()
    };
    let env = ConfigEnvironment {
        gem_home: Some("/env/gems".to_string()),
        no_bundler: Some("false".to_string()),
        home_dir: Some("/home/u".to_string()),
        ..ConfigEnvironment::default()
    };
    let settings = TrackedConfig::from_merged(&cli, &file, &env);
    assert_eq!(settings.rubies_dir.value, "/file/rubies");
    assert_eq!(settings.rubies_dir.source, ConfigSource::ConfigFile);
    assert_eq!(settings.gem_home.value, "/cli/gems");
    assert_eq!(settings.gem_home.source, ConfigSource::Cli);
    assert!(!settings.no_bundler.value);
    assert_eq!(settings.no_bundler.source, ConfigSource::EnvVar);
    assert_eq!(settings.work_dir.value, ".");
    assert_eq!(settings.work_dir.source, ConfigSource::Default);
}

#[test]
fn empty_runtime_has_no_ruby_environment() {
    let butler = ButlerRuntime::empty("/rubies", "/work");
    assert!(!butler.has_ruby_environment());
    let selected = ButlerRuntime::new(ruby("3.2.0", "/rubies/ruby-3.2.0"), None, "/work");
    assert!(selected.has_ruby_environment());
}

#[test]
fn user_gems_pair_the_user_directory_with_the_ruby_lib_directory() {
    let r = ruby("3.2.0", "/rubies/ruby-3.2.0");
    let context = GemPathContext::with_home_dir("/project", &r, None, Some("/home/user"));
    let config = UserGemsDetector.detect(&context).unwrap();
    assert_eq!(
        config.gem_dirs().to_vec(),
        vec!["/home/user/.gem/ruby/3.2.0".to_string(), "/rubies/ruby-3.2.0/lib/ruby/gems/3.2.0".to_string()]
    );
    assert_eq!(
        config.gem_bin_dirs().to_vec(),
        vec!["/home/user/.gem/ruby/3.2.0/bin".to_string(), "/home/user/.gem/ruby/3.2.0/bin".to_string()]
    );
}

#[test]
fn rubies_dir_message_leaves_a_blank_line() {
    assert_eq!(
        format_rubies_dir_not_found("/nowhere"),
        "Ruby installation directory not found: /nowhere\n\nPlease verify the path exists or specify a different location\nusing the -R flag or RB_RUBIES_DIR environment variable."
    );
}

#[test]
fn kdl_scripts_keep_their_form() {
    let config = parse_kdl(
        "scripts {\n    lint \"rubocop\"\n    server {\n        command \"rails server\"\n    }\n}\n",
        "rb.kdl",
    )
    .unwrap();
    assert_eq!(*script(&config.scripts, "lint"), ScriptDefinition::Simple("rubocop".to_string()));
    assert_eq!(
        *script(&config.scripts, "server"),
        ScriptDefinition::Detailed { command: "rails server".to_string(), description: None }
    );
}

#[test]
fn project_from_parsed_kdl_document() {
    let document: kdl::KdlDocument =
        "project {\n    name \"Shop\"\n}\nscripts {\n    test {\n        command \"rspec\"\n        description \"Specs\"\n    }\n}\n"
            .parse()
            .unwrap();
    let config = project_from_document(&document);
    assert_eq!(config.project.name, Some("Shop".to_string()));
    assert_eq!(config.project.description, None);
    assert_eq!(
        config.scripts,
        vec![(
            "test".to_string(),
            ScriptDefinition::Detailed { command: "rspec".to_string(), description: Some("Specs".to_string()) }
        )]
    );
}

#[test]
fn existence_target_is_bundle_under_bundle_exec() {
    let mut runtime = ButlerRuntime::new(ruby("3.2.0", "/rubies/ruby-3.2.0"), None, "/app");
    assert_eq!(Command::new("rake").existence_target(&runtime), "rake");
    runtime.bundler_runtime = Some(BundlerRuntime::new("/app", RubyVersion::new(3, 2, 0)));
    assert_eq!(Command::new("rake").existence_target(&runtime), "bundle");
    assert_eq!(Command::new("bundler").existence_target(&runtime), "bundler");
}

#[test]
fn script_names_from_toml_project_text() {
    let content = "[project]\nname = \"x\"\n\n[scripts]\ntest = \"rspec\"\nlint = \"rubocop\"\nteardown = { command = \"rake down\" }\n";
    let mut names = script_name_suggestions(content, "te");
    names.sort();
    assert_eq!(names, vec!["teardown".to_string(), "test".to_string()]);
    assert_eq!(script_name_suggestions(content, "l"), vec!["lint".to_string()]);
    assert!(script_name_suggestions("not [ toml", "").is_empty());
    assert!(script_name_suggestions("[project]\nname = \"x\"\n", "").is_empty());
}

#[test]
fn sync_needs_a_bundler_project() {
    let mut runtime = ButlerRuntime::new(ruby("3.2.0", "/rubies/ruby-3.2.0"), None, "/app");
    match runtime.sync_precondition() {
        Err(ButlerError::General(m)) => assert_eq!(m, "No bundler environment detected"),
        other => panic!("unexpected {:?}", other),
    }
    runtime.bundler_runtime = Some(BundlerRuntime::new("/app", RubyVersion::new(3, 2, 0)));
    assert_eq!(runtime.sync_precondition().unwrap().root, "/app");
}

#[test]
fn scripts_table_is_picked_from_the_parsed_entries() {
    let entries = vec![
        ("project".to_string(), Some(vec!["name".to_string()])),
        ("scripts".to_string(), Some(vec!["lint".to_string(), "test".to_string()])),
    ];
    assert_eq!(scripts_table_keys(Some(entries)), vec!["lint".to_string(), "test".to_string()]);
    assert!(scripts_table_keys(Some(vec![("scripts".to_string(), None)])).is_empty());
    assert!(scripts_table_keys(Some(vec![("project".to_string(), Some(vec!["x".to_string()]))])).is_empty());
    assert!(scripts_table_keys(None).is_empty());
}

#[test]
fn environment_ranks_above_config_file_in_merges() {
    assert!(ConfigSource::EnvVar.priority() > ConfigSource::ConfigFile.priority());
    let mut value = ConfigValue::from_file("file".to_string());
    value.merge_with(ConfigValue::from_env("env".to_string()));
    assert_eq!(value.value, "env");
    assert_eq!(value.source, ConfigSource::EnvVar);
}

#[test]
fn error_report_picks_message_and_exit_code() {
    let settings = TrackedConfig::from_merged(
        &RbConfig { rubies_dir: Some("/r".to_string()), ..RbConfig::default() },
        &RbConfig::default(),
        &ConfigEnvironment::default(),
    );
    let (message, code) = error_report(&ButlerError::General("boom".to_string()), &settings);
    assert_eq!(message, "❌ boom");
    assert_eq!(code, 1);
    let (message, code) = error_report(&ButlerError::RubiesDirectoryNotFound("/r".to_string()), &settings);
    assert_eq!(message, format_rubies_dir_not_found("/r"));
    assert_eq!(code, 1);
    let (message, code) = error_report(&ButlerError::NoSuitableRuby("x".to_string()), &settings);
    assert!(message.contains("/r (from CLI argument)"));
    assert_eq!(code, 1);
    let (message, code) = error_report(&ButlerError::CommandNotFound("rake".to_string()), &settings);
    assert!(message.contains("rake"));
    assert_eq!(code, 127);
}

#[test]
fn project_for_run_chooses_the_error() {
    let project = ProjectRuntime::new("/p", "rbproject.toml", ProjectMetadata::default(), Vec::new());
    assert_eq!(project_for_run(Ok(Some(project)), None).unwrap().root, "/p");
    match project_for_run(Ok(None), Some("test")) {
        Err(ButlerError::General(m)) => assert!(m.ends_with("rb -P path/to/rb.toml run test")),
        other => panic!("unexpected {:?}", other),
    }
    match project_for_run(Ok(None), None) {
        Err(ButlerError::General(m)) => assert!(m.ends_with("rb -P path/to/gem.kdl run")),
        other => panic!("unexpected {:?}", other),
    }
    match project_for_run(Err(("/x.toml".to_string(), "bad".to_string())), None) {
        Err(ButlerError::General(m)) => {
            assert_eq!(m, "The specified project configuration could not be loaded from /x.toml:\nbad")
        }
        other => panic!("unexpected {:?}", other),
    }
}

#[test]
fn latest_selection_counts_prereleases() {
    let rubies = vec![ruby("3.2.0", "/r/ruby-3.2.0"), ruby("3.3.0-preview1", "/r/pre"), ruby("3.1.4", "/r/ruby-3.1.4")];
    let chosen = select_ruby_runtime(&rubies, None, None).unwrap();
    assert_eq!(chosen.version, RubyVersion::parse("3.3.0-preview1").unwrap());
}
