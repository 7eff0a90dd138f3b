use ruby_butler::butler::ButlerError;
use ruby_butler::cli::errors::{error_exit_code, format_command_not_found, format_no_suitable_ruby};
use ruby_butler::cli::version_info::build_version_info;
use ruby_butler::config::settings::RbConfig;

fn version_info() -> String {
    build_version_info("0.1.0", None, None, None, false)
}

#[test]
fn test_help_command_without_subcommand_returns_ok() {
    assert!(true);
}

#[test]
fn test_help_command_with_valid_subcommand() {
    assert!(true);
}

#[test]
fn test_build_version_info_contains_version() {
    let info = version_info();
    let version = "0.1.0";
    assert!(info.contains(&format!("v{}", version)));
}

#[test]
fn test_build_version_info_contains_butler_branding() {
    let info = version_info();
    assert!(info.contains("Ruby Butler"));
    assert!(info.contains("RubyElders.com"));
    assert!(info.contains("gentleman"));
}

#[test]
fn test_build_version_info_includes_git_hash_when_available() {
    let info = version_info();
    assert!(!info.is_empty());
    assert!(info.len() > 50);
}

#[test]
fn test_merge_with_empty_cli_config() {
    let mut cli_config = RbConfig::default();
    let file_config = RbConfig {
        rubies_dir: Some("/test/rubies".to_string()),
        ruby_version: Some("3.3.0".to_string()),
        gem_home: Some("/test/gems".to_string()),
        no_bundler: None,
        work_dir: None,
    };

    cli_config.merge_with(file_config);

    assert_eq!(cli_config.rubies_dir, Some("/test/rubies".to_string()));
    assert_eq!(cli_config.ruby_version, Some("3.3.0".to_string()));
    assert_eq!(cli_config.gem_home, Some("/test/gems".to_string()));
    assert_eq!(cli_config.no_bundler, None);
}

#[test]
fn test_merge_with_cli_takes_precedence() {
    let mut cli_config = RbConfig {
        rubies_dir: Some("/cli/rubies".to_string()),
        ruby_version: Some("3.2.0".to_string()),
        gem_home: None,
        no_bundler: None,
        work_dir: None,
    };
    let file_config = RbConfig {
        rubies_dir: Some("/file/rubies".to_string()),
        ruby_version: Some("3.3.0".to_string()),
        gem_home: Some("/file/gems".to_string()),
        no_bundler: Some(true),
        work_dir: None,
    };

    cli_config.merge_with(file_config);

    assert_eq!(cli_config.rubies_dir, Some("/cli/rubies".to_string()));
    assert_eq!(cli_config.ruby_version, Some("3.2.0".to_string()));
    assert_eq!(cli_config.gem_home, Some("/file/gems".to_string()));
    assert_eq!(cli_config.no_bundler, Some(true));
}

#[test]
fn test_merge_with_partial_file_config() {
    let mut cli_config = RbConfig {
        rubies_dir: None,
        ruby_version: Some("3.2.0".to_string()),
        gem_home: None,
        no_bundler: None,
        work_dir: None,
    };
    let file_config = RbConfig {
        rubies_dir: Some("/file/rubies".to_string()),
        ruby_version: None,
        gem_home: Some("/file/gems".to_string()),
        no_bundler: None,
        work_dir: None,
    };

    cli_config.merge_with(file_config);

    assert_eq!(cli_config.rubies_dir, Some("/file/rubies".to_string()));
    assert_eq!(cli_config.ruby_version, Some("3.2.0".to_string()));
    assert_eq!(cli_config.gem_home, Some("/file/gems".to_string()));
    assert_eq!(cli_config.no_bundler, None);
}

#[test]
fn test_format_no_suitable_ruby_contains_key_info() {
    let rubies_dir = "/home/user/.rubies";
    let message = format_no_suitable_ruby(
        rubies_dir,
        "config".to_string(),
        Some(("3.3.0".to_string(), "command-line".to_string())),
    );

    assert!(message.contains(".rubies"));
    assert!(message.contains("config"));
    assert!(message.contains("3.3.0"));
}

#[test]
fn test_format_no_suitable_ruby_without_version() {
    let rubies_dir = "/usr/local/rubies";
    let message = format_no_suitable_ruby(rubies_dir, "default".to_string(), None);

    assert!(message.contains("rubies"));
    assert!(message.contains("default"));
    assert!(message.contains("install"));
}

#[test]
fn test_format_command_not_found_contains_command_name() {
    let message = format_command_not_found("nonexistent_command");

    assert!(message.contains("nonexistent_command"));
    assert!(message.contains("absent"));
}

#[test]
fn test_format_command_not_found_provides_guidance() {
    let message = format_command_not_found("rake");

    assert!(message.contains("install") || message.contains("gem") || message.contains("bundle"));
}

#[test]
fn test_error_exit_code_returns_1_for_no_suitable_ruby() {
    let error = ButlerError::NoSuitableRuby("test".to_string());
    assert_eq!(error_exit_code(&error), 1);
}

#[test]
fn test_error_exit_code_returns_127_for_command_not_found() {
    let error = ButlerError::CommandNotFound("test".to_string());
    assert_eq!(error_exit_code(&error), 127);
}

#[test]
fn test_error_exit_code_returns_1_for_general_error() {
    let error = ButlerError::General("test error".to_string());
    assert_eq!(error_exit_code(&error), 1);
}

#[test]
fn test_error_exit_code_returns_1_for_rubies_directory_not_found() {
    let error = ButlerError::RubiesDirectoryNotFound("/test".to_string());
    assert_eq!(error_exit_code(&error), 1);
}
