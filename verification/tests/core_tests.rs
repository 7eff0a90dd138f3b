use ruby_butler::gem_paths::GemPathConfig;
use ruby_butler::project::ScriptDefinition;
use ruby_butler::provider::RuntimeProvider;
use ruby_butler::gem_paths::CompositeGemPathDetector;
use ruby_butler::version_detector::{CompositeDetector, GemfileDetector, RubyVersionFileDetector};

struct DummyProvider;

impl RuntimeProvider for DummyProvider {
    fn bin_dir(&self) -> Option<String> {
        Some("/dummy/bin".to_string())
    }

    fn gem_dir(&self) -> Option<String> {
        None
    }

    fn compose_version_detector(&self) -> CompositeDetector {
        CompositeDetector::standard()
    }

    fn compose_gem_path_detector(&self) -> CompositeGemPathDetector {
        ruby_butler::gem_paths::standard_gem_path_detector()
    }
}

#[test]
fn runtime_provider_trait_basic() {
    let p = DummyProvider;
    assert_eq!(p.bin_dir(), Some("/dummy/bin".to_string()));
    assert_eq!(p.gem_dir(), None);
}

#[test]
fn test_gem_path_config_creation() {
    let config = GemPathConfig::new(
        vec!["/home/user/.gem/ruby/3.2.0".to_string()],
        vec!["/home/user/.gem/ruby/3.2.0/bin".to_string()],
    );

    assert_eq!(config.gem_dirs().len(), 1);
    assert_eq!(config.gem_bin_dirs().len(), 1);
    assert_eq!(config.gem_home(), Some("/home/user/.gem/ruby/3.2.0".to_string()));
}

#[test]
fn test_gem_path_config_no_dirs() {
    let config = GemPathConfig::new(vec![], vec![]);

    assert_eq!(config.gem_dirs().len(), 0);
    assert_eq!(config.gem_home(), None);
}

#[test]
fn script_definition_simple_variant() {
    let def = ScriptDefinition::Simple("test command".to_string());
    assert_eq!(def.command(), "test command");
    assert_eq!(def.description(), None);
}

#[test]
fn script_definition_detailed_variant_with_description() {
    let def = ScriptDefinition::Detailed {
        command: "test command".to_string(),
        description: Some("Test description".to_string()),
    };
    assert_eq!(def.command(), "test command");
    assert_eq!(def.description(), Some("Test description"));
}

#[test]
fn script_definition_detailed_variant_without_description() {
    let def = ScriptDefinition::Detailed {
        command: "test command".to_string(),
        description: None,
    };
    assert_eq!(def.command(), "test command");
    assert_eq!(def.description(), None);
}

#[test]
fn test_extract_quoted_version() {
    assert_eq!(
        GemfileDetector::extract_quoted_version("ruby '3.2.5'"),
        Some("3.2.5".to_string())
    );
    assert_eq!(
        GemfileDetector::extract_quoted_version("ruby \"3.1.0\""),
        Some("3.1.0".to_string())
    );
    assert_eq!(
        GemfileDetector::extract_quoted_version("ruby '3.0.0' # comment"),
        Some("3.0.0".to_string())
    );
    assert_eq!(GemfileDetector::extract_quoted_version("ruby 3.2.5"), None);
    assert_eq!(GemfileDetector::extract_quoted_version("gem 'rails'"), None);
}

#[test]
fn gemfile_test_name() {
    assert_eq!(GemfileDetector.name(), "Gemfile");
}

#[test]
fn ruby_version_file_test_name() {
    assert_eq!(RubyVersionFileDetector.name(), ".ruby-version");
}
