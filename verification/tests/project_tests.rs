use ruby_butler::butler::{ButlerError, ButlerRuntime};
use ruby_butler::command::Command;
use ruby_butler::project::{
    config_format, insert_script, parse_kdl, ConfigFormat, ProjectConfig, ProjectLoadError,
    ProjectMetadata, ProjectRuntime, RbprojectDetector, ScriptDefinition, Scripts,
};
use ruby_butler::provider::RuntimeProvider;
use ruby_butler::ruby::{RubyRuntime, RubyType};
use ruby_butler::version::RubyVersion;

/// Reads a project file's TOML text the way `rb` does: `[project]` with
/// `name` and `description`, `[scripts]` with plain or detailed scripts.
fn toml_config(content: &str) -> Result<ProjectConfig, String> {
    let table: toml::Table = content.parse::<toml::Table>().map_err(|e| e.to_string())?;
    let mut metadata = ProjectMetadata::default();
    if let Some(project) = table.get("project").and_then(|p| p.as_table()) {
        metadata.name = project.get("name").and_then(|v| v.as_str()).map(|s| s.to_string());
        metadata.description =
            project.get("description").and_then(|v| v.as_str()).map(|s| s.to_string());
    }
    let mut scripts: Scripts = Vec::new();
    if let Some(table) = table.get("scripts").and_then(|s| s.as_table()) {
        for (name, value) in table {
            let def = if let Some(cmd) = value.as_str() {
                ScriptDefinition::Simple(cmd.to_string())
            } else if let Some(detail) = value.as_table() {
                let command = detail
                    .get("command")
                    .and_then(|c| c.as_str())
                    .ok_or_else(|| "missing command".to_string())?;
                ScriptDefinition::Detailed {
                    command: command.to_string(),
                    description: detail
                        .get("description")
                        .and_then(|d| d.as_str())
                        .map(|d| d.to_string()),
                }
            } else {
                return Err("invalid script".to_string());
            };
            insert_script(&mut scripts, name.clone(), def);
        }
    }
    Ok(ProjectConfig { project: metadata, scripts })
}

/// Loads a project from a config file's path and text.
fn load(path: &str, content: &str) -> Result<ProjectRuntime, ProjectLoadError> {
    let name = ruby_butler::path::file_name(path).unwrap_or_default();
    let parsed = match config_format(&name) {
        ConfigFormat::Kdl => parse_kdl(content, &name),
        ConfigFormat::Toml => toml_config(content),
    };
    ProjectRuntime::from_config(path, parsed)
}

fn scripts_of(pairs: &[(&str, &str)]) -> Scripts {
    let mut scripts: Scripts = Vec::new();
    for (name, cmd) in pairs {
        insert_script(&mut scripts, name.to_string(), ScriptDefinition::Simple(cmd.to_string()));
    }
    scripts
}

fn is_file_among(files: Vec<String>) -> impl Fn(&str) -> bool {
    move |p: &str| files.iter().any(|f| f == p)
}

#[test]
fn new_creates_project_runtime() {
    let scripts = scripts_of(&[("test", "rspec"), ("lint", "rubocop")]);
    let project =
        ProjectRuntime::new("/tmp/project", "rbproject.toml", ProjectMetadata::default(), scripts.clone());
    assert_eq!(project.root, "/tmp/project");
    assert_eq!(project.scripts, scripts);
}

#[test]
fn from_file_parses_simple_scripts() {
    let project = load(
        "/tmp/project/rbproject.toml",
        "\n[scripts]\ntest = \"rspec\"\nlint = \"rubocop\"\nserver = \"rails server -p 3000\"\n",
    )
    .unwrap();
    assert_eq!(project.root, "/tmp/project");
    assert_eq!(project.scripts.len(), 3);
    assert_eq!(project.get_script_command("test"), Some("rspec"));
    assert_eq!(project.get_script_command("lint"), Some("rubocop"));
    assert_eq!(project.get_script_command("server"), Some("rails server -p 3000"));
    assert_eq!(project.get_script_description("test"), None);
}

#[test]
fn from_file_handles_empty_scripts_section() {
    let project = load("/tmp/project/rbproject.toml", "\n[scripts]\n").unwrap();
    assert_eq!(project.scripts.len(), 0);
}

#[test]
fn from_file_handles_missing_scripts_section() {
    let project = load("/tmp/project/rbproject.toml", "\n[other_section]\nkey = \"value\"\n").unwrap();
    assert_eq!(project.scripts.len(), 0);
}

#[test]
fn from_file_returns_error_for_invalid_toml() {
    let result = load("/tmp/project/rbproject.toml", "\n[scripts\nthis is not valid toml\n");
    assert!(matches!(result, Err(ProjectLoadError::InvalidData(_))));
}

#[test]
fn rbproject_path_returns_correct_path() {
    let project = ProjectRuntime::new("/tmp/project", "rbproject.toml", ProjectMetadata::default(), Vec::new());
    assert_eq!(project.rbproject_path(), "/tmp/project/rbproject.toml");
}

#[test]
fn has_script_returns_true_for_existing_script() {
    let project = ProjectRuntime::new(
        "/tmp/project",
        "rbproject.toml",
        ProjectMetadata::default(),
        scripts_of(&[("test", "rspec")]),
    );
    assert!(project.has_script("test"));
    assert!(!project.has_script("nonexistent"));
}

#[test]
fn get_script_command_returns_command_string() {
    let project = ProjectRuntime::new(
        "/tmp/project",
        "rbproject.toml",
        ProjectMetadata::default(),
        scripts_of(&[("test", "rspec"), ("lint", "rubocop -a")]),
    );
    assert_eq!(project.get_script_command("test"), Some("rspec"));
    assert_eq!(project.get_script_command("lint"), Some("rubocop -a"));
    assert_eq!(project.get_script_command("nonexistent"), None);
}

#[test]
fn script_names_returns_sorted_list() {
    let project = ProjectRuntime::new(
        "/tmp/project",
        "rbproject.toml",
        ProjectMetadata::default(),
        scripts_of(&[("server", "rails server"), ("test", "rspec"), ("lint", "rubocop")]),
    );
    assert_eq!(project.script_names(), vec!["lint", "server", "test"]);
}

#[test]
fn runtime_provider_returns_none() {
    let project = ProjectRuntime::new("/tmp/project", "rbproject.toml", ProjectMetadata::default(), Vec::new());
    assert_eq!(project.bin_dir(), None);
    assert_eq!(project.gem_dir(), None);
    assert_eq!(project.compose_gem_path_detector().detectors.len(), 3);
}

#[test]
fn from_file_with_complex_commands() {
    let project = load(
        "/tmp/project/rbproject.toml",
        "\n[scripts]\ntest = \"rspec --format documentation\"\nserver = \"rails server -b 0.0.0.0 -p 3000\"\nconsole = \"rails console\"\ndeploy = \"cap production deploy\"\n",
    )
    .unwrap();
    assert_eq!(project.scripts.len(), 4);
    assert_eq!(project.get_script_command("test"), Some("rspec --format documentation"));
    assert_eq!(project.get_script_command("server"), Some("rails server -b 0.0.0.0 -p 3000"));
}

#[test]
fn from_file_parses_detailed_scripts() {
    let project = load(
        "/tmp/project/rbproject.toml",
        "\n[scripts]\ntest = { command = \"rspec\", description = \"Run test suite\" }\nlint = { command = \"rubocop\", description = \"Run linter\" }\nserver = { command = \"rails server -p 3000\" }\n",
    )
    .unwrap();
    assert_eq!(project.scripts.len(), 3);
    assert_eq!(project.get_script_command("test"), Some("rspec"));
    assert_eq!(project.get_script_description("test"), Some("Run test suite"));
    assert_eq!(project.get_script_command("lint"), Some("rubocop"));
    assert_eq!(project.get_script_description("lint"), Some("Run linter"));
    assert_eq!(project.get_script_command("server"), Some("rails server -p 3000"));
    assert_eq!(project.get_script_description("server"), None);
}

#[test]
fn from_file_parses_mixed_scripts() {
    let project = load(
        "/tmp/project/rbproject.toml",
        "\n[scripts]\ntest = \"rspec\"\nlint = { command = \"rubocop\", description = \"Check code quality\" }\nserver = \"rails server\"\ndeploy = { command = \"cap production deploy\", description = \"Deploy to production\" }\n",
    )
    .unwrap();
    assert_eq!(project.scripts.len(), 4);
    assert_eq!(project.get_script_command("test"), Some("rspec"));
    assert_eq!(project.get_script_description("test"), None);
    assert_eq!(project.get_script_command("lint"), Some("rubocop"));
    assert_eq!(project.get_script_description("lint"), Some("Check code quality"));
    assert_eq!(project.get_script_command("server"), Some("rails server"));
    assert_eq!(project.get_script_description("server"), None);
    assert_eq!(project.get_script_command("deploy"), Some("cap production deploy"));
    assert_eq!(project.get_script_description("deploy"), Some("Deploy to production"));
}

#[test]
fn from_file_parses_scripts_with_colons() {
    let project = load(
        "/tmp/project/rbproject.toml",
        "\n[scripts]\ntest = \"rspec\"\n\"test:watch\" = \"guard\"\n\"lint:fix\" = { command = \"rubocop -a\", description = \"Auto-fix linting issues\" }\n\"db:migrate\" = \"rails db:migrate\"\n\"deploy:production\" = { command = \"cap production deploy\" }\n",
    )
    .unwrap();
    assert_eq!(project.scripts.len(), 5);
    assert_eq!(project.get_script_command("test"), Some("rspec"));
    assert_eq!(project.get_script_command("test:watch"), Some("guard"));
    assert_eq!(project.get_script_command("lint:fix"), Some("rubocop -a"));
    assert_eq!(project.get_script_description("lint:fix"), Some("Auto-fix linting issues"));
    assert_eq!(project.get_script_command("db:migrate"), Some("rails db:migrate"));
    assert_eq!(project.get_script_command("deploy:production"), Some("cap production deploy"));
    assert_eq!(project.get_script_description("deploy:production"), None);
}

#[test]
fn from_file_parses_project_metadata() {
    let project = load(
        "/tmp/project/rbproject.toml",
        "\n[project]\nname = \"My Elegant Project\"\ndescription = \"A sophisticated Ruby application managed with distinction\"\n\n[scripts]\ntest = \"rspec\"\n",
    )
    .unwrap();
    assert_eq!(project.metadata.name, Some("My Elegant Project".to_string()));
    assert_eq!(
        project.metadata.description,
        Some("A sophisticated Ruby application managed with distinction".to_string())
    );
}

#[test]
fn from_file_handles_missing_project_metadata() {
    let project = load("/tmp/project/rbproject.toml", "\n[scripts]\ntest = \"rspec\"\n").unwrap();
    assert_eq!(project.metadata.name, None);
    assert_eq!(project.metadata.description, None);
}

#[test]
fn from_file_handles_partial_project_metadata() {
    let project = load(
        "/tmp/project/rbproject.toml",
        "\n[project]\nname = \"Project Without Description\"\n\n[scripts]\ntest = \"rspec\"\n",
    )
    .unwrap();
    assert_eq!(project.metadata.name, Some("Project Without Description".to_string()));
    assert_eq!(project.metadata.description, None);
}

#[test]
fn from_file_parses_simple_kdl_scripts() {
    let project = load(
        "/tmp/project/rb.kdl",
        "\nscripts {\n    test \"rspec\"\n    lint \"rubocop\"\n    server \"rails server -p 3000\"\n}\n",
    )
    .unwrap();
    assert_eq!(project.root, "/tmp/project");
    assert_eq!(project.config_filename, "rb.kdl");
    assert_eq!(project.scripts.len(), 3);
    assert_eq!(project.get_script_command("test"), Some("rspec"));
    assert_eq!(project.get_script_command("lint"), Some("rubocop"));
    assert_eq!(project.get_script_command("server"), Some("rails server -p 3000"));
}

#[test]
fn from_file_parses_detailed_kdl_scripts() {
    let project = load(
        "/tmp/project/rb.kdl",
        "\nscripts {\n    test {\n        command \"rspec\"\n        description \"Run test suite\"\n    }\n    lint {\n        command \"rubocop\"\n        description \"Run linter\"\n    }\n    server {\n        command \"rails server -p 3000\"\n    }\n}\n",
    )
    .unwrap();
    assert_eq!(project.scripts.len(), 3);
    assert_eq!(project.get_script_command("test"), Some("rspec"));
    assert_eq!(project.get_script_description("test"), Some("Run test suite"));
    assert_eq!(project.get_script_command("lint"), Some("rubocop"));
    assert_eq!(project.get_script_description("lint"), Some("Run linter"));
    assert_eq!(project.get_script_command("server"), Some("rails server -p 3000"));
    assert_eq!(project.get_script_description("server"), None);
}

#[test]
fn from_file_parses_kdl_with_project_metadata() {
    let project = load(
        "/tmp/project/gem.kdl",
        "\nproject {\n    name \"My KDL Project\"\n    description \"A project configured with KDL\"\n}\n\nscripts {\n    test \"rspec\"\n    lint \"rubocop\"\n}\n",
    )
    .unwrap();
    assert_eq!(project.config_filename, "gem.kdl");
    assert_eq!(project.metadata.name, Some("My KDL Project".to_string()));
    assert_eq!(project.metadata.description, Some("A project configured with KDL".to_string()));
    assert_eq!(project.scripts.len(), 2);
}

#[test]
fn from_file_handles_empty_kdl_scripts() {
    let project = load("/tmp/project/rb.kdl", "\nscripts {\n}\n").unwrap();
    assert_eq!(project.scripts.len(), 0);
}

#[test]
fn from_file_handles_kdl_without_project_section() {
    let project = load("/tmp/project/rb.kdl", "\nscripts {\n    test \"rspec\"\n}\n").unwrap();
    assert_eq!(project.metadata.name, None);
    assert_eq!(project.metadata.description, None);
    assert_eq!(project.scripts.len(), 1);
}

#[test]
fn from_file_returns_error_for_invalid_kdl() {
    let result = load("/tmp/project/rb.kdl", "\nscripts {\n    test \"missing closing quote\n}\n");
    match result {
        Err(ProjectLoadError::InvalidData(m)) => assert!(m.starts_with("Failed to parse rb.kdl: ")),
        _ => panic!("expected invalid data"),
    }
}

#[test]
fn kdl_later_script_replaces_earlier_one() {
    let project = load(
        "/tmp/project/rb.kdl",
        "scripts {\n    test \"rspec\"\n    test \"minitest\"\n    skip 42\n}\n",
    )
    .unwrap();
    assert_eq!(project.scripts.len(), 1);
    assert_eq!(project.get_script_command("test"), Some("minitest"));
    assert!(!project.has_script("skip"));
}

#[test]
fn from_config_reports_a_path_without_file_name() {
    let result = ProjectRuntime::from_config("/", Ok(ProjectConfig { project: ProjectMetadata::default(), scripts: Vec::new() }));
    assert_eq!(result.err(), Some(ProjectLoadError::InvalidPath("Invalid config file path".to_string())));
}

#[test]
fn discover_finds_rbproject_in_current_directory() {
    let found = RbprojectDetector::discover(
        "/tmp/project",
        is_file_among(vec!["/tmp/project/rbproject.toml".to_string()]),
    )
    .unwrap();
    assert_eq!(found, "/tmp/project/rbproject.toml");
    let project = load(&found, "\n[scripts]\ntest = \"rspec\"\nlint = \"rubocop\"\n").unwrap();
    assert_eq!(project.root, "/tmp/project");
    assert_eq!(project.scripts.len(), 2);
    assert_eq!(project.get_script_command("test"), Some("rspec"));
    assert_eq!(project.get_script_command("lint"), Some("rubocop"));
}

#[test]
fn discover_finds_rbproject_in_parent_directory() {
    let found = RbprojectDetector::discover(
        "/tmp/project/app/controllers",
        is_file_among(vec!["/tmp/project/rbproject.toml".to_string()]),
    )
    .unwrap();
    let project = load(&found, "\n[scripts]\nserver = \"rails server\"\n").unwrap();
    assert_eq!(project.root, "/tmp/project");
    assert_eq!(project.scripts.len(), 1);
    assert_eq!(project.get_script_command("server"), Some("rails server"));
}

#[test]
fn discover_returns_none_when_no_rbproject_found() {
    assert!(RbprojectDetector::discover("/tmp/project", is_file_among(vec![])).is_none());
}

#[test]
fn discover_stops_at_first_rbproject_found() {
    let found = RbprojectDetector::discover(
        "/tmp/root/subproject/lib/deep",
        is_file_among(vec![
            "/tmp/root/rbproject.toml".to_string(),
            "/tmp/root/subproject/rbproject.toml".to_string(),
        ]),
    )
    .unwrap();
    let project = load(&found, "\n[scripts]\nnested = \"nested command\"\n").unwrap();
    assert_eq!(project.root, "/tmp/root/subproject");
    assert_eq!(project.scripts.len(), 1);
    assert_eq!(project.get_script_command("nested"), Some("nested command"));
    assert_eq!(project.get_script_command("root"), None);
}

#[test]
fn discover_handles_empty_scripts_section() {
    let found = RbprojectDetector::discover(
        "/tmp/project",
        is_file_among(vec!["/tmp/project/rbproject.toml".to_string()]),
    )
    .unwrap();
    assert_eq!(load(&found, "\n[scripts]\n").unwrap().scripts.len(), 0);
}

#[test]
fn discover_handles_missing_scripts_section() {
    let found = RbprojectDetector::discover(
        "/tmp/project",
        is_file_among(vec!["/tmp/project/rbproject.toml".to_string()]),
    )
    .unwrap();
    assert_eq!(load(&found, "\n[other_section]\nkey = \"value\"\n").unwrap().scripts.len(), 0);
}

#[test]
fn discover_returns_error_for_invalid_toml() {
    let found = RbprojectDetector::discover(
        "/tmp/project",
        is_file_among(vec!["/tmp/project/rbproject.toml".to_string()]),
    )
    .unwrap();
    assert!(load(&found, "\n[scripts\nthis is not valid toml\n").is_err());
}

// ---- Commands ----

fn plain_runtime(root: &str) -> ButlerRuntime {
    let ruby = RubyRuntime::new(RubyType::CRuby, RubyVersion::new(3, 0, 0), root);
    ButlerRuntime::new(ruby, None, "/")
}

#[test]
fn test_butler_command_basic_creation() {
    let cmd = Command::new("echo");
    assert_eq!(cmd.program, "echo");
    assert!(cmd.args.is_empty());
}

#[test]
fn test_butler_command_with_args() {
    let mut cmd = Command::new("ruby");
    cmd.arg("-v");
    cmd.args(&["--version", "test"]);
    assert_eq!(cmd.program, "ruby");
    assert_eq!(cmd.args, vec!["-v", "--version", "test"]);
}

#[test]
fn test_bundle_command_detection() {
    assert!(Command::new("bundle").is_bundle_command());
    assert!(Command::new("bundler").is_bundle_command());
    assert!(!Command::new("ruby").is_bundle_command());
}

#[test]
fn test_should_use_bundle_exec_logic() {
    let butler_runtime = plain_runtime("/test");
    assert!(!Command::new("ruby").should_use_bundle_exec(&butler_runtime));
    assert!(!Command::new("ls").should_use_bundle_exec(&butler_runtime));
    assert!(!Command::new("rails").should_use_bundle_exec(&butler_runtime));
    assert!(!Command::new("bundle").should_use_bundle_exec(&butler_runtime));
}

#[test]
fn test_executable_resolution_fallback() {
    let butler_runtime = plain_runtime("/nonexistent");
    let resolved = Command::resolve_executable_path(
        "nonexistent-command-12345",
        &butler_runtime,
        Some("/usr/bin:/bin".to_string()),
        "/",
        false,
    );
    assert_eq!(resolved, "nonexistent-command-12345");
    let _resolved = Command::resolve_executable_path("gem", &butler_runtime, None, "/", false);
}

#[test]
fn test_command_exists_for_nonexistent_command() {
    let butler_runtime = plain_runtime("/nonexistent");
    let cmd = Command::new("definitely-does-not-exist-12345");
    assert!(!cmd.command_exists(&butler_runtime, Some("/usr/bin:/bin".to_string()), "/", false));
}

#[test]
fn test_command_exists_for_bundle_commands() {
    let butler_runtime = plain_runtime("/test");
    let bundle_cmd = Command::new("bundle");
    assert!(!bundle_cmd.should_use_bundle_exec(&butler_runtime));
    let _exists = bundle_cmd.command_exists(&butler_runtime, None, "/", false);
}

fn validation_error(program: &str) -> ButlerError {
    let butler_runtime = plain_runtime("/nonexistent");
    let cmd = Command::new(program);
    let exists = cmd.command_exists(&butler_runtime, Some("/usr/bin:/bin".to_string()), "/", false);
    cmd.validate(exists).unwrap_err()
}

#[test]
fn test_status_with_validation_for_nonexistent_command() {
    match validation_error("definitely-does-not-exist-12345") {
        ButlerError::CommandNotFound(command) => assert_eq!(command, "definitely-does-not-exist-12345"),
        _ => panic!("Expected CommandNotFound error"),
    }
}

#[test]
fn test_output_with_validation_for_nonexistent_command() {
    assert_eq!(
        validation_error("definitely-does-not-exist-12345"),
        ButlerError::CommandNotFound("definitely-does-not-exist-12345".to_string())
    );
}

#[test]
fn test_execute_with_validation_for_nonexistent_command() {
    assert!(matches!(
        validation_error("definitely-does-not-exist-12345"),
        ButlerError::CommandNotFound(_)
    ));
}

#[test]
fn invocation_runs_through_bundle_exec_in_a_bundler_project() {
    let mut runtime = plain_runtime("/opt/ruby");
    runtime.bundler_runtime = Some(ruby_butler::bundler::BundlerRuntime::new("/app", RubyVersion::new(3, 0, 0)));
    let mut cmd = Command::new("rails");
    cmd.arg("server");
    cmd.env("RAILS_ENV", "test");
    cmd.env("RAILS_ENV", "development");
    cmd.current_dir("/app");
    let inv = cmd.invocation(&runtime, "/usr/bin/bundle", None, false);
    assert_eq!(inv.program, "/usr/bin/bundle");
    assert_eq!(inv.args, vec!["exec", "rails", "server"]);
    assert_eq!(inv.current_dir, Some("/app".to_string()));
    assert_eq!(inv.env[0].0, "PATH");
    assert_eq!(inv.env.last().unwrap(), &("RAILS_ENV".to_string(), "development".to_string()));
    assert!(inv.env.iter().any(|(k, v)| k == "BUNDLE_GEMFILE" && v == "/app/Gemfile"));
}

#[test]
fn execution_failure_message() {
    let cmd = Command::new("ruby");
    assert_eq!(
        cmd.execution_failure("permission denied"),
        ButlerError::General("Failed to execute command 'ruby': permission denied".to_string())
    );
}

#[test]
fn executable_is_resolved_along_the_environment_path() {
    let butler_runtime = plain_runtime("/nonexistent");
    let resolved = Command::resolve_executable_path("sh", &butler_runtime, Some("/usr/bin:/bin".to_string()), "/", false);
    assert_ne!(resolved, "sh");
    assert!(resolved.ends_with("/sh"));
    assert!(Command::new("sh").command_exists(&butler_runtime, Some("/usr/bin:/bin".to_string()), "/", false));
}

#[test]
fn invocation_runs_directly_outside_bundler() {
    let butler_runtime = plain_runtime("/opt/ruby-3.0.0");
    let mut cmd = Command::new("sh");
    cmd.arg("-c");
    cmd.env("FOO", "bar");
    let inv = cmd.build_invocation(&butler_runtime, Some("/usr/bin:/bin".to_string()), "/", false);
    assert!(inv.program.ends_with("/sh"));
    assert_eq!(inv.args, vec!["-c".to_string()]);
    let path = inv.env.iter().find(|(k, _)| k == "PATH").map(|(_, v)| v.clone()).unwrap();
    assert!(path.starts_with("/opt/ruby-3.0.0/bin:"));
    assert_eq!(inv.env.last().unwrap(), &("FOO".to_string(), "bar".to_string()));
}

#[test]
fn env_set_twice_keeps_last_value() {
    let mut cmd = Command::new("x");
    cmd.env("A", "1");
    cmd.env("B", "2");
    cmd.env("A", "3");
    assert_eq!(
        cmd.env_vars,
        vec![("A".to_string(), "3".to_string()), ("B".to_string(), "2".to_string())]
    );
}

#[test]
fn resolution_falls_back_to_the_program_name() {
    assert_eq!(Command::resolved_or_program("rake", None), "rake");
    assert_eq!(Command::resolved_or_program("rake", Some("/bin/rake".to_string())), "/bin/rake");
}
