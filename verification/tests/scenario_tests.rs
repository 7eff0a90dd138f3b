use ruby_butler::bundler::{BundlerRuntime, BundlerRuntimeDetector};
use ruby_butler::butler::{ButlerError, ButlerRuntime, DiscoveryInputs};
use ruby_butler::discovery::{DirListing, EntryRead, RubyRuntimeDetector};
use ruby_butler::gems::GemRuntime;
use ruby_butler::provider::{resolve_search_dir, EnvProvider};
use ruby_butler::ruby::{RubyRuntime, RubyType};
use ruby_butler::version::RubyVersion;
use ruby_butler::version_detector::VersionSources;

fn v(text: &str) -> RubyVersion {
    RubyVersion::parse(text).unwrap()
}

fn ruby_dirs(versions: &[&str]) -> DirListing {
    DirListing::Read(
        versions
            .iter()
            .map(|n| EntryRead::Entry { name: format!("ruby-{}", n), is_dir: true })
            .collect(),
    )
}

fn sources(ruby_version_file: Option<&str>, gemfile: Option<&str>) -> VersionSources {
    VersionSources {
        ruby_version_file: ruby_version_file.map(|s| s.to_string()),
        gemfile: gemfile.map(|s| s.to_string()),
    }
}

fn files_present(files: Vec<String>) -> impl Fn(&str) -> bool {
    move |p: &str| files.iter().any(|f| f == p)
}

struct DummyProvider;

impl EnvProvider for DummyProvider {
    fn env_vars(&self, _current_path: Option<String>) -> Vec<(String, String)> {
        vec![("FOO".into(), "BAR".into())]
    }

    fn extra_path(&self) -> Vec<String> {
        vec!["/dummy/bin".to_string()]
    }
}

#[test]
fn env_provider_trait_basic() {
    let p = DummyProvider;
    let envs = p.env_vars(None);
    assert_eq!(envs, vec![("FOO".to_string(), "BAR".to_string())]);
    let paths = p.extra_path();
    assert_eq!(paths, vec!["/dummy/bin".to_string()]);
}

#[test]
fn integration_tests_test_ruby_detector_integration() {
    let rubies = RubyRuntimeDetector::discover("/sandbox", &ruby_dirs(&["3.2.5", "3.1.0"])).unwrap();
    assert_eq!(rubies.len(), 2);
    assert_eq!(rubies[0].version.to_text(), "3.2.5");
    assert_eq!(rubies[1].version.to_text(), "3.1.0");

    let latest = RubyRuntimeDetector::latest(&rubies);
    assert!(latest.is_some());
    assert_eq!(latest.unwrap().version.to_text(), "3.2.5");
}

#[test]
fn integration_tests_test_resolve_search_dir_integration() {
    let result = resolve_search_dir(Some("/sandbox/rubies".to_string())).unwrap();
    assert_eq!(result, "/sandbox/rubies");

    if let Ok(result) = resolve_search_dir(None) {
        assert!(result.ends_with(".rubies"));
        assert!(result.starts_with('/'));
    }
}

const RAILS_GEMFILE: &str = "source 'https://rubygems.org'

ruby '3.2.5'

gem 'rails', '~> 7.1.0'
gem 'pg', '~> 1.4'
gem 'puma', '~> 6.4'
gem 'redis', '~> 5.0'
gem 'bootsnap', require: false
gem 'sassc-rails'
gem 'image_processing', '~> 1.2'

group :development, :test do
  gem 'debug', platforms: %i[ mri mingw x64_mingw ]
  gem 'rspec-rails'
  gem 'factory_bot_rails'
end

group :development do
  gem 'web-console'
  gem 'spring'
  gem 'spring-watcher-listen'
end
";

#[test]
fn demo_complete_bundler_workflow_with_ruby_version() {
    let is_file = files_present(vec![
        "/sandbox/my-rails-app/Gemfile".to_string(),
        "/sandbox/my-rails-app/.ruby-version".to_string(),
    ]);
    let deep_dir = "/sandbox/my-rails-app/app/controllers/api/v1";
    let root = BundlerRuntimeDetector::discover(deep_dir, is_file);
    assert!(root.is_some(), "Should find bundler project from nested directory");
    let root = root.unwrap();
    assert_eq!(root, "/sandbox/my-rails-app");

    let version_sources = sources(Some("3.2.5"), Some(RAILS_GEMFILE));
    let probe = BundlerRuntime::new(&root, RubyVersion::new(3, 2, 5));
    assert_eq!(probe.ruby_version_from(&version_sources), Some(v("3.2.5")));

    let bundler = BundlerRuntime::new(&root, v("3.2.5"));
    assert!(bundler.provided_bin_dir(true).is_some());
    assert_eq!(bundler.vendor_dir(), "/sandbox/my-rails-app/.rb/vendor/bundler");
    assert_eq!(bundler.bin_dir(), "/sandbox/my-rails-app/.rb/vendor/bundler/ruby/3.2.0/bin");
    assert_eq!(bundler.gemfile_path(), "/sandbox/my-rails-app/Gemfile");
}

#[test]
fn demo_version_precedence_and_fallbacks() {
    let bundler1 = BundlerRuntime::new("/sandbox/precedence-test", RubyVersion::new(3, 3, 0));
    let s1 = sources(Some("3.3.0"), Some("source 'https://rubygems.org'\nruby '3.1.0'\ngem 'rails'\n"));
    assert_eq!(bundler1.ruby_version_from(&s1), Some(v("3.3.0")));

    let bundler2 = BundlerRuntime::new("/sandbox/gemfile-only", RubyVersion::new(3, 2, 1));
    let s2 = sources(None, Some("source 'https://rubygems.org'\nruby \"3.2.1\"\ngem 'sinatra'\n"));
    assert_eq!(bundler2.ruby_version_from(&s2), Some(v("3.2.1")));

    let bundler3 = BundlerRuntime::new("/sandbox/no-version", RubyVersion::new(3, 2, 1));
    let s3 = sources(None, Some("source 'https://rubygems.org'\ngem 'rack'\n"));
    assert_eq!(bundler3.ruby_version_from(&s3), None);
}

fn discovery(
    listing: DirListing,
    requested: Option<&str>,
    skip_bundler: bool,
    bundler_root: Option<&str>,
    version_sources: VersionSources,
) -> Result<ButlerRuntime, ButlerError> {
    let inputs = DiscoveryInputs {
        rubies_listing: listing,
        bundler_root: bundler_root.map(|s| s.to_string()),
        version_sources,
        home_dir: Some("/home/user".to_string()),
    };
    ButlerRuntime::discover_and_compose_with_current_dir(
        "/rubies",
        requested.map(|s| s.to_string()),
        None,
        skip_bundler,
        "/work/app",
        &inputs,
    )
}

#[test]
fn butler_integration_tests_test_butler_runtime_with_only_ruby() {
    let rubies = RubyRuntimeDetector::discover("/sandbox", &ruby_dirs(&["3.1.0"])).unwrap();
    assert_eq!(rubies.len(), 1);
    let ruby = &rubies[0];
    let butler = ButlerRuntime::new(ruby.clone(), None, "/work");

    let bin_dirs = butler.bin_dirs(false);
    assert_eq!(bin_dirs.len(), 1);
    assert!(bin_dirs[0].ends_with("bin"));
    assert!(bin_dirs[0].contains("ruby-3.1.0"));

    let gem_dirs = butler.gem_dirs(false);
    assert_eq!(gem_dirs.len(), 1);
    assert!(gem_dirs[0].contains("3.1.0"));
    assert_eq!(butler.gem_home(), None);

    let path = butler.build_path(Some("/usr/bin:/bin".to_string()), false);
    assert!(path.contains(&bin_dirs[0]));
    assert!(path.contains("/usr/bin:/bin"));
}

#[test]
fn butler_integration_tests_test_butler_runtime_with_ruby_and_gem() {
    let rubies = RubyRuntimeDetector::discover("/sandbox", &ruby_dirs(&["3.2.1"])).unwrap();
    let ruby = &rubies[0];
    let gem_runtime = GemRuntime::for_base_dir("/sandbox/.gem", &ruby.version);
    let butler = ButlerRuntime::new(ruby.clone(), Some(gem_runtime.clone()), "/work");

    let bin_dirs = butler.bin_dirs(false);
    assert_eq!(bin_dirs.len(), 2);
    assert!(bin_dirs[0].contains(".gem"));
    assert!(bin_dirs[0].ends_with("bin"));
    assert!(bin_dirs[1].contains("ruby-3.2.1"));
    assert!(bin_dirs[1].ends_with("bin"));

    assert_eq!(butler.gem_dirs(false).len(), 2);
    assert_eq!(butler.gem_home(), Some(gem_runtime.gem_home.clone()));
}

#[test]
fn test_butler_runtime_with_multiple_rubies() {
    let rubies = RubyRuntimeDetector::discover("/sandbox", &ruby_dirs(&["3.1.0", "3.2.5", "3.3.0"])).unwrap();
    assert_eq!(rubies.len(), 3);
    let latest = RubyRuntimeDetector::latest(&rubies).unwrap();
    assert_eq!(latest.version, v("3.3.0"));
    let butler = ButlerRuntime::new(latest, None, "/work");
    assert!(butler.bin_dirs(false)[0].contains("ruby-3.3.0"));
}

#[test]
fn test_butler_runtime_skip_bundler_flag() {
    let gemfile = Some("source 'https://rubygems.org'\ngem 'rake'");
    let with_bundler =
        discovery(ruby_dirs(&["3.3.0"]), Some("3.3.0"), false, Some("/work/app"), sources(None, gemfile)).unwrap();
    assert!(with_bundler.bundler_runtime().is_some());

    let without_bundler =
        discovery(ruby_dirs(&["3.3.0"]), Some("3.3.0"), true, Some("/work/app"), sources(None, gemfile)).unwrap();
    assert!(without_bundler.bundler_runtime().is_none());
}

#[test]
fn test_bundler_isolation_excludes_user_gems() {
    let runtime = discovery(ruby_dirs(&["3.3.7"]), None, false, Some("/work/isolated-app"), sources(None, None)).unwrap();
    assert!(runtime.gem_runtime().is_none());
    assert!(runtime.bundler_runtime().is_some());

    let bin_dirs = runtime.bin_dirs(true);
    assert!(bin_dirs.iter().any(|p| p.contains("bundler")));
    assert!(!bin_dirs.iter().any(|p| p.contains(".gem") && !p.contains("bundler")));

    let gem_dirs = runtime.gem_dirs(true);
    assert!(gem_dirs.iter().any(|p| p.contains("bundler")));
    assert!(!gem_dirs.iter().any(|p| p.contains(".gem") && !p.contains("bundler")));
}

#[test]
fn test_no_bundler_flag_restores_user_gems() {
    let runtime = discovery(ruby_dirs(&["3.3.7"]), None, true, Some("/work/user-gems-app"), sources(None, None)).unwrap();
    assert!(runtime.bundler_runtime().is_none());
    assert!(runtime.gem_runtime().is_some());

    let bin_dirs = runtime.bin_dirs(true);
    assert!(!bin_dirs.iter().any(|p| p.contains("bundler")));
    assert!(bin_dirs.iter().any(|p| p.contains(".gem")));

    let gem_dirs = runtime.gem_dirs(true);
    assert!(!gem_dirs.iter().any(|p| p.contains("bundler")));
    assert!(gem_dirs.iter().any(|p| p.contains(".gem")));
}

#[test]
fn test_bundler_bin_paths_include_ruby_version() {
    let runtime =
        discovery(ruby_dirs(&["3.3.7"]), None, false, Some("/work/versioned-bins"), sources(Some("3.3.7"), None))
            .unwrap();
    let bin_dirs = runtime.bin_dirs(true);
    let bundler_bin = bin_dirs.iter().find(|p| p.contains("bundler")).unwrap();
    assert!(bundler_bin.ends_with("ruby/3.3.0/bin"));
    assert_eq!(bundler_bin, "/work/versioned-bins/.rb/vendor/bundler/ruby/3.3.0/bin");
}

#[test]
fn unknown_requested_version_is_an_error() {
    let result = discovery(ruby_dirs(&["3.2.5"]), Some("9.9.9"), false, None, sources(None, None));
    assert!(matches!(result, Err(ButlerError::NoSuitableRuby(_))));
}

#[test]
fn required_version_from_bundler_project_wins_over_latest() {
    let runtime = discovery(
        ruby_dirs(&["3.1.0", "3.3.0"]),
        None,
        false,
        Some("/work/app"),
        sources(Some("3.1.0"), None),
    )
    .unwrap();
    assert_eq!(runtime.selected_ruby().unwrap().version, v("3.1.0"));
}

#[test]
fn latest_is_chosen_without_request_or_requirement() {
    let runtime = discovery(ruby_dirs(&["3.1.0", "3.3.0", "3.2.9"]), None, false, None, sources(None, None)).unwrap();
    assert_eq!(runtime.selected_ruby().unwrap().version, v("3.3.0"));
    assert_eq!(runtime.ruby_installations().len(), 3);
}

#[test]
fn empty_rubies_directory_gives_runtime_without_ruby() {
    let runtime = discovery(DirListing::Read(vec![]), None, false, None, sources(None, None)).unwrap();
    assert!(runtime.selected_ruby().is_err());
    assert!(runtime.ruby_installations().is_empty());
}

#[test]
fn unreadable_rubies_directory_counts_as_empty() {
    let runtime =
        discovery(DirListing::Unreadable("denied".to_string()), None, false, None, sources(None, None)).unwrap();
    assert!(runtime.selected_ruby().is_err());
    assert_eq!(runtime.rubies_dir(), "/rubies");
}

#[test]
fn ruby_runtime_bin_dir_of_discovered_installation() {
    let rubies = RubyRuntimeDetector::discover("/sandbox", &ruby_dirs(&["3.4.1"])).unwrap();
    let expected = RubyRuntime::new(RubyType::CRuby, v("3.4.1"), "/sandbox/ruby-3.4.1");
    assert_eq!(rubies[0].bin_dir(), expected.bin_dir());
    assert_eq!(rubies[0].bin_dir(), "/sandbox/ruby-3.4.1/bin");
}

#[test]
fn gem_path_starts_with_gem_home_without_repeats() {
    let ruby = RubyRuntime::new(RubyType::CRuby, v("3.2.1"), "/opt/ruby-3.2.1");
    let gems = GemRuntime::for_base_dir("/home/u/.gem", &ruby.version);
    let butler = ButlerRuntime::new(ruby, Some(gems), "/work");
    let env = butler.env_vars(None, false);
    let get = |k: &str| env.iter().find(|(key, _)| key == k).map(|(_, val)| val.clone()).unwrap();
    assert_eq!(get("GEM_HOME"), "/home/u/.gem/ruby/3.2.1");
    assert_eq!(get("GEM_PATH"), "/home/u/.gem/ruby/3.2.1:/opt/ruby-3.2.1/lib/ruby/gems/3.2.0");
    assert_eq!(get("PATH"), "/home/u/.gem/ruby/3.2.1/bin:/opt/ruby-3.2.1/bin");
}
