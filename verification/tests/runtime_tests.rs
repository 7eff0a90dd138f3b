use ruby_butler::bundler::{BundlerRuntime, BundlerRuntimeDetector};
use ruby_butler::butler::ButlerRuntime;
use ruby_butler::discovery::{DirListing, EntryRead, RubyRuntimeDetector};
use ruby_butler::gem_paths::{
    BundlerIsolationDetector, CompositeGemPathDetector, CustomGemBaseDetector, GemPathContext,
    GemPathDetector, UserGemsDetector,
};
use ruby_butler::gems::GemRuntime;
use ruby_butler::provider::RuntimeProvider;
use ruby_butler::ruby::{RubyRuntime, RubyType};
use ruby_butler::version::{RubyVersion, RubyVersionExt};
use ruby_butler::version_detector::{
    CompositeDetector, GemfileDetector, RubyVersionDetector, RubyVersionFileDetector,
    VersionSources,
};

fn v(text: &str) -> RubyVersion {
    RubyVersion::parse(text).unwrap()
}

fn rt(ver: &str, root: &str) -> RubyRuntime {
    RubyRuntime::new(RubyType::CRuby, v(ver), root)
}

fn dir(name: &str) -> EntryRead {
    EntryRead::Entry { name: name.to_string(), is_dir: true }
}

fn file(name: &str) -> EntryRead {
    EntryRead::Entry { name: name.to_string(), is_dir: false }
}

fn sources(ruby_version_file: Option<&str>, gemfile: Option<&str>) -> VersionSources {
    VersionSources {
        ruby_version_file: ruby_version_file.map(|s| s.to_string()),
        gemfile: gemfile.map(|s| s.to_string()),
    }
}

fn files_present(files: Vec<String>) -> impl Fn(&str) -> bool {
    move |p: &str| files.iter().any(|f| f == p)
}

// ---- Ruby installations ----

#[test]
fn version_name_composes_kind_and_version() {
    let r = rt("3.2.1", "/opt/rubies/ruby-3.2.1");
    assert_eq!(r.version_name(), "CRuby-3.2.1");
}

#[test]
fn bin_dir_is_root_bin() {
    let r = rt("3.4.5", "opt/rubies/ruby-3.4.5");
    assert!(r.bin_dir().ends_with("rubies/ruby-3.4.5/bin"));
}

#[test]
fn ruby_executable_matches_platform_suffix() {
    let r = rt("3.3.2", "/opt/rubies/ruby-3.3.2");
    let exe = r.ruby_executable_path("");
    assert!(exe.ends_with("/ruby"));
    assert_eq!(ruby_butler::path::file_name(&exe), Some("ruby".to_string()));
    assert_eq!(ruby_butler::path::parent(&exe), Some(r.bin_dir()));
}

#[test]
fn lib_gems_path_uses_major_minor_zero() {
    let r = rt("3.2.4", "/opt/rubies/ruby-3.2.4");
    assert!(r.lib_dir().ends_with("lib/ruby/gems/3.2.0"));
}

#[test]
fn runtime_provider_returns_bin_and_gem_dir_for_ruby_runtime() {
    let r = rt("3.2.2", "/opt/rubies/ruby-3.2.2");
    assert_eq!(
        <RubyRuntime as RuntimeProvider>::bin_dir(&r),
        Some("/opt/rubies/ruby-3.2.2/bin".to_string())
    );
    assert_eq!(
        <RubyRuntime as RuntimeProvider>::gem_dir(&r),
        Some("/opt/rubies/ruby-3.2.2/lib/ruby/gems/3.2.0".to_string())
    );
}

#[test]
fn infer_gem_runtime_creates_proper_gem_runtime() {
    let r = rt("3.4.5", "/opt/rubies/ruby-3.4.5");
    let gem_runtime = r.gem_runtime_in_home(Some("/home/user")).expect("a home directory");
    assert!(gem_runtime.gem_home.ends_with(".gem/ruby/3.4.5"));
    assert!(gem_runtime.gem_bin.ends_with(".gem/ruby/3.4.5/bin"));
    assert_eq!(ruby_butler::path::file_name(&gem_runtime.gem_home), Some("3.4.5".to_string()));
}

#[test]
fn infer_gem_runtime_without_home_is_an_error() {
    let r = rt("3.4.5", "/opt/rubies/ruby-3.4.5");
    assert_eq!(
        r.gem_runtime_in_home(None),
        Err("Could not determine home directory".to_string())
    );
}

#[test]
fn test_ruby_abi_version() {
    assert_eq!(RubyVersion::new(3, 3, 7).ruby_abi_version(), "3.3.0");
    assert_eq!(RubyVersion::new(3, 4, 5).ruby_abi_version(), "3.4.0");
    assert_eq!(RubyVersion::new(2, 7, 8).ruby_abi_version(), "2.7.0");
    assert_eq!(RubyVersion::new(3, 3, 0).ruby_abi_version(), "3.3.0");
}

#[test]
fn discovers_only_ruby_xyz_directories() {
    let listing = DirListing::Read(vec![
        dir("ruby-3.1.2"),
        dir("ruby-3.3.0"),
        dir("jruby-9.4.5.0"),
        dir("ruby-3.2.0-rc1"),
        file("ruby-3.2.2"),
    ]);
    let rubies = RubyRuntimeDetector::discover("/sandbox", &listing).unwrap();

    let names: Vec<_> = rubies.iter().map(|r| r.version_name()).collect();
    assert_eq!(names, vec!["CRuby-3.3.0", "CRuby-3.1.2"]);

    let r = rubies.iter().find(|r| r.version_name() == "CRuby-3.3.0").unwrap();
    assert!(r.bin_dir().ends_with("ruby-3.3.0/bin"));
}

#[test]
fn latest_picks_highest_semver() {
    let listing = DirListing::Read(vec![dir("ruby-3.0.6"), dir("ruby-3.2.4"), dir("ruby-3.3.1")]);
    let rubies = RubyRuntimeDetector::discover("/sandbox", &listing).unwrap();
    let latest = RubyRuntimeDetector::latest(&rubies).expect("some ruby");
    assert_eq!(latest.version_name(), "CRuby-3.3.1");
}

#[test]
fn ruby_executable_path_is_platform_correct() {
    let listing = DirListing::Read(vec![dir("ruby-3.2.1")]);
    let rubies = RubyRuntimeDetector::discover("/sandbox", &listing).unwrap();
    let r = rubies.into_iter().find(|r| r.version_name() == "CRuby-3.2.1").unwrap();
    assert!(r.ruby_executable_path("").ends_with("ruby"));
    assert!(r.ruby_executable_path(".exe").ends_with("ruby.exe"));
}

// ---- Gem runtimes and gem paths ----

#[test]
fn test_gem_runtime_provider_bin_and_gem_dir() {
    let gem = GemRuntime::for_base_dir("/tmp/gemtest", &v("3.2.1"));
    assert_eq!(gem.bin_dir(), Some(gem.gem_bin.clone()));
    assert_eq!(gem.gem_dir(), Some(gem.gem_home.clone()));
}

#[test]
fn test_for_base_dir_uses_full_version() {
    let gem = GemRuntime::for_base_dir("/home/user/.gem", &v("3.4.5"));
    assert_eq!(gem.gem_home, "/home/user/.gem/ruby/3.4.5");
    assert_eq!(gem.gem_bin, "/home/user/.gem/ruby/3.4.5/bin");
}

fn test_ruby() -> RubyRuntime {
    rt("3.2.0", "/rubies/ruby-3.2.0")
}

#[test]
fn test_detects_when_custom_base_provided() {
    let ruby = test_ruby();
    let context = GemPathContext::new("/project", &ruby, Some("/custom/gems"));
    let config = CustomGemBaseDetector.detect(&context);
    assert!(config.is_some());
    let config = config.unwrap();
    assert_eq!(config.gem_dirs().len(), 1);
    assert!(config.gem_home().unwrap().contains("custom/gems"));
}

#[test]
fn test_returns_none_when_no_custom_base() {
    let ruby = test_ruby();
    let context = GemPathContext::new("/project", &ruby, None);
    assert!(CustomGemBaseDetector.detect(&context).is_none());
}

#[test]
fn test_always_returns_empty_config() {
    let ruby = test_ruby();
    let context = GemPathContext::with_home_dir("/sandbox/app", &ruby, None, Some("/home/user"));
    let config = BundlerIsolationDetector.detect(&context);
    assert!(config.is_some());
    let config = config.unwrap();
    assert_eq!(config.gem_dirs().len(), 0);
    assert_eq!(config.gem_home(), None);
}

#[test]
fn test_empty_config_regardless_of_directory() {
    let ruby = test_ruby();
    let context = GemPathContext::with_home_dir("/sandbox", &ruby, None, None);
    let config = BundlerIsolationDetector.detect(&context);
    assert!(config.is_some());
    assert_eq!(config.unwrap().gem_dirs().len(), 0);
}

#[test]
fn test_always_detects() {
    let ruby = test_ruby();
    let context = GemPathContext::with_home_dir("/any/directory", &ruby, None, Some("/home/user"));
    assert!(UserGemsDetector.detect(&context).is_some());
}

#[test]
fn test_includes_both_user_and_ruby_gems() {
    let ruby = test_ruby();
    let context = GemPathContext::with_home_dir("/project", &ruby, None, Some("/home/user"));
    let config = UserGemsDetector.detect(&context).unwrap();
    assert_eq!(config.gem_dirs().len(), 2);
    assert!(config.gem_home().unwrap().contains(".gem"));
    assert!(!config.gem_bin_dirs().is_empty());
}

#[test]
fn user_gems_need_a_home_directory() {
    let ruby = test_ruby();
    let context = GemPathContext::with_home_dir("/project", &ruby, None, None);
    assert!(UserGemsDetector.detect(&context).is_none());
}

#[test]
fn test_composite_detector_returns_first_match() {
    let ruby = test_ruby();
    let context = GemPathContext::with_home_dir("/project", &ruby, Some("/custom/gems"), Some("/home/user"));
    let detector = CompositeGemPathDetector::new(vec![
        GemPathDetector::CustomGemBase,
        GemPathDetector::BundlerIsolation,
        GemPathDetector::UserGems,
    ]);
    let config = detector.detect(&context);
    assert!(config.gem_home().unwrap().contains("custom"));
}

#[test]
fn mod_test_composite_detector_tries_in_order() {
    let ruby = test_ruby();
    let context = GemPathContext::with_home_dir("/project", &ruby, None, Some("/home/user"));
    let detector = CompositeGemPathDetector::new(vec![
        GemPathDetector::CustomGemBase,
        GemPathDetector::UserGems,
    ]);
    let config = detector.detect(&context);
    assert!(!config.gem_dirs().is_empty());
}

#[test]
fn test_bundler_composition_returns_empty() {
    let ruby = test_ruby();
    let context = GemPathContext::with_home_dir("/project", &ruby, None, Some("/home/user"));
    let detector = CompositeGemPathDetector::new(vec![
        GemPathDetector::CustomGemBase,
        GemPathDetector::BundlerIsolation,
    ]);
    assert_eq!(detector.detect(&context).gem_dirs().len(), 0);
}

#[test]
fn detector_names() {
    assert_eq!(CustomGemBaseDetector.name(), "custom-gem-base");
    assert_eq!(BundlerIsolationDetector.name(), "bundler-isolation");
    assert_eq!(UserGemsDetector.name(), "user-gems");
    assert_eq!(GemPathDetector::UserGems.name(), "user-gems");
}

// ---- Version detection ----

#[test]
fn test_detects_single_quotes() {
    let s = sources(None, Some("source 'https://rubygems.org'\nruby '3.1.4'\ngem 'rails'\n"));
    assert_eq!(GemfileDetector.detect(&s).unwrap(), RubyVersion::new(3, 1, 4));
}

#[test]
fn test_detects_double_quotes() {
    let s = sources(None, Some("source \"https://rubygems.org\"\nruby \"3.3.0\"\n"));
    assert_eq!(GemfileDetector.detect(&s).unwrap(), RubyVersion::new(3, 3, 0));
}

#[test]
fn test_returns_none_when_no_gemfile() {
    assert!(GemfileDetector.detect(&sources(None, None)).is_none());
}

#[test]
fn test_returns_none_when_no_ruby_declaration() {
    let s = sources(None, Some("source 'https://rubygems.org'\ngem 'rails'\n"));
    assert!(GemfileDetector.detect(&s).is_none());
}

#[test]
fn gemfile_ruby_line_with_crlf_and_indent() {
    let s = sources(None, Some("source 'x'\r\n   ruby '3.2.2'\r\n"));
    assert_eq!(GemfileDetector.detect(&s).unwrap(), RubyVersion::new(3, 2, 2));
}

#[test]
fn test_detects_valid_version() {
    let s = sources(Some("3.2.5\n"), None);
    assert_eq!(RubyVersionFileDetector.detect(&s).unwrap(), RubyVersion::new(3, 2, 5));
}

#[test]
fn test_handles_whitespace() {
    let s = sources(Some("  3.1.0  \n"), None);
    assert_eq!(RubyVersionFileDetector.detect(&s).unwrap(), RubyVersion::new(3, 1, 0));
}

#[test]
fn test_returns_none_when_file_missing() {
    assert!(RubyVersionFileDetector.detect(&sources(None, None)).is_none());
}

#[test]
fn test_returns_none_when_invalid_version() {
    assert!(RubyVersionFileDetector.detect(&sources(Some("invalid\n"), None)).is_none());
}

#[test]
fn test_composite_detector_tries_in_order_for_versions() {
    let s = sources(Some("3.2.5\n"), Some("ruby '3.1.0'\n"));
    let detector = CompositeDetector::new(vec![
        RubyVersionDetector::RubyVersionFile,
        RubyVersionDetector::Gemfile,
    ]);
    assert_eq!(detector.detect(&s).unwrap(), RubyVersion::new(3, 2, 5));
}

#[test]
fn test_composite_detector_falls_back() {
    let s = sources(None, Some("ruby '2.7.8'\n"));
    let detector = CompositeDetector::new(vec![
        RubyVersionDetector::RubyVersionFile,
        RubyVersionDetector::Gemfile,
    ]);
    assert_eq!(detector.detect(&s).unwrap(), RubyVersion::new(2, 7, 8));
}

#[test]
fn test_composite_detector_returns_none_when_nothing_found() {
    let detector = CompositeDetector::new(vec![
        RubyVersionDetector::RubyVersionFile,
        RubyVersionDetector::Gemfile,
    ]);
    assert!(detector.detect(&sources(None, None)).is_none());
}

#[test]
fn composite_detector_add_detector_appends() {
    let mut detector = CompositeDetector::new(vec![RubyVersionDetector::RubyVersionFile]);
    detector.add_detector(RubyVersionDetector::Gemfile);
    assert_eq!(detector.detectors, vec![RubyVersionDetector::RubyVersionFile, RubyVersionDetector::Gemfile]);
    assert_eq!(detector.detect(&sources(Some("x"), Some("ruby '3.0.1'"))), Some(RubyVersion::new(3, 0, 1)));
}

// ---- Bundler ----

fn bundler_rt(root: &str) -> BundlerRuntime {
    BundlerRuntime::new(root, RubyVersion::new(3, 3, 7))
}

const BASIC_GEMFILE: &str = "source 'https://rubygems.org'\n\ngem 'rails'\n";

#[test]
fn new_creates_proper_paths() {
    let br = bundler_rt("/home/user/my-app");
    assert_eq!(br.root, "/home/user/my-app");
    assert_eq!(br.gemfile_path(), "/home/user/my-app/Gemfile");
    assert_eq!(br.app_config_dir(), "/home/user/my-app/.rb");
    assert_eq!(br.vendor_dir(), "/home/user/my-app/.rb/vendor/bundler");
    assert_eq!(br.ruby_version_from(&sources(None, None)), None);
}

#[test]
fn bin_dir_is_vendor_bin() {
    let br = bundler_rt("/home/user/project");
    assert_eq!(br.bin_dir(), "/home/user/project/.rb/vendor/bundler/ruby/3.3.0/bin");
}

#[test]
fn bin_dir_finds_versioned_ruby_directory() {
    let br = bundler_rt("/sandbox/versioned-project");
    assert_eq!(br.bin_dir(), "/sandbox/versioned-project/.rb/vendor/bundler/ruby/3.3.0/bin");
}

#[test]
fn runtime_provider_returns_paths_when_configured() {
    let br = bundler_rt("/sandbox/configured-app");
    let expected_bin = format!("{}/ruby/3.3.0/bin", br.vendor_dir());
    let expected_gem = format!("{}/ruby/3.3.0", br.vendor_dir());
    assert_eq!(br.provided_bin_dir(true), Some(expected_bin));
    assert_eq!(br.provided_gem_dir(true), Some(expected_gem));
}

#[test]
fn runtime_provider_returns_none_when_not_configured() {
    let br = bundler_rt("/sandbox/basic-app");
    assert_eq!(br.provided_bin_dir(false), None);
    assert_eq!(br.provided_gem_dir(false), None);
}

#[test]
fn detects_ruby_version_from_ruby_version_file() {
    let br = bundler_rt("/sandbox/version-app");
    let s = sources(Some("3.2.5"), Some(BASIC_GEMFILE));
    assert_eq!(br.ruby_version_from(&s), Some(v("3.2.5")));
}

#[test]
fn detects_ruby_version_from_gemfile_single_quotes() {
    let br = bundler_rt("/sandbox/gemfile-app");
    let s = sources(
        None,
        Some("source 'https://rubygems.org'\nruby '3.1.4'\ngem 'rails', '~> 7.0'\ngem 'pg', '~> 1.4'\n"),
    );
    assert_eq!(br.ruby_version_from(&s), Some(v("3.1.4")));
}

#[test]
fn detects_ruby_version_from_gemfile_double_quotes() {
    let br = bundler_rt("/sandbox/gemfile-app");
    let s = sources(None, Some("source \"https://rubygems.org\"\nruby \"3.3.0\"\ngem \"rails\", \"~> 7.1\"\n"));
    assert_eq!(br.ruby_version_from(&s), Some(v("3.3.0")));
}

#[test]
fn ruby_version_file_takes_precedence_over_gemfile() {
    let br = bundler_rt("/sandbox/precedence-app");
    let s = sources(Some("3.2.5"), Some("source 'https://rubygems.org'\nruby '3.1.0'\ngem 'rails'\n"));
    assert_eq!(br.ruby_version_from(&s), Some(v("3.2.5")));
}

#[test]
fn returns_none_for_invalid_ruby_version() {
    let br = bundler_rt("/sandbox/invalid-app");
    assert_eq!(br.ruby_version_from(&sources(Some("not-a-version"), None)), None);
}

#[test]
fn returns_none_when_no_ruby_version_specified() {
    let br = bundler_rt("/sandbox/no-version-app");
    let s = sources(None, Some("source 'https://rubygems.org'\ngem 'rails'\ngem 'pg'\n"));
    assert_eq!(br.ruby_version_from(&s), None);
}

#[test]
fn handles_whitespace_in_ruby_version_file() {
    let br = bundler_rt("/sandbox/whitespace-app");
    assert_eq!(br.ruby_version_from(&sources(Some("  3.2.1  \n"), Some(BASIC_GEMFILE))), Some(v("3.2.1")));
}

#[test]
fn discover_finds_gemfile_in_current_directory() {
    let is_file = files_present(vec!["/sandbox/current-dir-app/Gemfile".to_string()]);
    let root = BundlerRuntimeDetector::discover("/sandbox/current-dir-app", is_file).unwrap();
    assert_eq!(root, "/sandbox/current-dir-app");
    assert_eq!(bundler_rt(&root).gemfile_path(), "/sandbox/current-dir-app/Gemfile");
}

#[test]
fn discover_finds_gemfile_in_parent_directory() {
    let is_file = files_present(vec!["/sandbox/parent-dir-app/Gemfile".to_string()]);
    let root =
        BundlerRuntimeDetector::discover("/sandbox/parent-dir-app/app/controllers", is_file).unwrap();
    assert_eq!(root, "/sandbox/parent-dir-app");
    assert_eq!(bundler_rt(&root).gemfile_path(), "/sandbox/parent-dir-app/Gemfile");
}

#[test]
fn discover_returns_none_when_no_gemfile_found() {
    let is_file = files_present(vec![]);
    assert!(BundlerRuntimeDetector::discover("/sandbox/no-gemfile-here", is_file).is_none());
}

#[test]
fn discover_stops_at_first_gemfile_found() {
    let is_file = files_present(vec![
        "/sandbox/root-project/Gemfile".to_string(),
        "/sandbox/root-project/engines/my-engine/Gemfile".to_string(),
    ]);
    let root = BundlerRuntimeDetector::discover(
        "/sandbox/root-project/engines/my-engine/lib/deep",
        is_file,
    )
    .unwrap();
    assert_eq!(root, "/sandbox/root-project/engines/my-engine");
    assert_eq!(bundler_rt(&root).gemfile_path(), "/sandbox/root-project/engines/my-engine/Gemfile");
}

#[test]
fn discover_skips_directories_and_finds_parent_gemfile() {
    let is_file = files_present(vec!["/sandbox/deep-project/Gemfile".to_string()]);
    let root =
        BundlerRuntimeDetector::discover("/sandbox/deep-project/lib/my_gem/deep/nested", is_file)
            .unwrap();
    assert_eq!(root, "/sandbox/deep-project");
}

#[test]
fn discover_detects_ruby_version_from_project() {
    let is_file = files_present(vec!["/sandbox/ruby-version-app/Gemfile".to_string()]);
    let root = BundlerRuntimeDetector::discover("/sandbox/ruby-version-app", is_file).unwrap();
    let s = sources(None, Some("source 'https://rubygems.org'\nruby '3.2.1'\ngem 'rails'\n"));
    assert_eq!(bundler_rt(&root).ruby_version_from(&s), Some(v("3.2.1")));
}

#[test]
fn bundler_detector_integrates_with_bundler_sandbox() {
    let is_file = files_present(vec!["/sandbox/my-rails-app/Gemfile".to_string()]);
    let root = BundlerRuntimeDetector::discover("/sandbox/my-rails-app", is_file).unwrap();
    assert_eq!(root, "/sandbox/my-rails-app");
    let bundler_runtime = BundlerRuntime::new(&root, RubyVersion::new(3, 3, 7));
    assert!(bundler_runtime.provided_bin_dir(true).is_some());
}

#[test]
fn bundler_detector_finds_gemfile_from_nested_directory() {
    let is_file = files_present(vec![
        "/sandbox/root-project/Gemfile".to_string(),
        "/sandbox/root-project/engines/my-engine/Gemfile".to_string(),
    ]);
    let root = BundlerRuntimeDetector::discover(
        "/sandbox/root-project/engines/my-engine/lib/deep",
        is_file,
    )
    .unwrap();
    assert_ne!(root, "/sandbox/root-project");
    assert!(root.ends_with("engines/my-engine"));
}

#[test]
fn bundler_detector_returns_none_for_non_bundler_directory() {
    let is_file = files_present(vec![]);
    assert!(BundlerRuntimeDetector::discover("/sandbox/just-a-directory", is_file).is_none());
}

#[test]
fn bundler_runtime_provides_correct_paths_for_configured_project() {
    let br = BundlerRuntime::new("/sandbox/configured-app", RubyVersion::new(3, 3, 7));
    assert_eq!(br.gemfile_path(), "/sandbox/configured-app/Gemfile");
    assert_eq!(br.app_config_dir(), "/sandbox/configured-app/.rb");
    assert_eq!(br.vendor_dir(), "/sandbox/configured-app/.rb/vendor/bundler");
    assert_eq!(br.bin_dir(), format!("{}/ruby/3.3.0/bin", br.vendor_dir()));
}

#[test]
fn bundler_runtime_not_configured_for_basic_project() {
    let br = BundlerRuntime::new("/sandbox/basic-app", RubyVersion::new(3, 3, 7));
    assert_eq!(br.provided_bin_dir(false), None);
}

#[test]
fn bundler_runtime_detects_ruby_version_from_ruby_version_file() {
    let br = BundlerRuntime::new("/sandbox/version-project", RubyVersion::new(3, 2, 5));
    assert_eq!(br.ruby_version_from(&sources(Some("3.2.5"), Some(BASIC_GEMFILE))), Some(v("3.2.5")));
}

#[test]
fn bundler_runtime_detects_ruby_version_from_custom_gemfile() {
    let br = BundlerRuntime::new("/sandbox/custom-gemfile-app", RubyVersion::new(3, 1, 2));
    let s = sources(
        None,
        Some("source 'https://rubygems.org'\nruby '3.1.2'\ngem 'rails', '~> 7.0'\ngem 'pg', '~> 1.4'\ngem 'puma', '~> 5.6'\n"),
    );
    assert_eq!(br.ruby_version_from(&s), Some(v("3.1.2")));
}

#[test]
fn bundler_detector_preserves_ruby_version_discovery() {
    let is_file = files_present(vec!["/sandbox/detector-version-app/Gemfile".to_string()]);
    let root = BundlerRuntimeDetector::discover("/sandbox/detector-version-app", is_file);
    assert!(root.is_some());
    let detector = CompositeDetector::new(vec![
        RubyVersionDetector::RubyVersionFile,
        RubyVersionDetector::Gemfile,
    ]);
    let s = sources(None, Some("source 'https://rubygems.org'\nruby \"3.3.1\"\ngem 'sinatra'\ngem 'rackup'\n"));
    assert_eq!(detector.detect(&s), Some(v("3.3.1")));
}

#[test]
fn bundler_runtime_handles_mixed_version_sources() {
    let br = BundlerRuntime::new("/sandbox/mixed-version-app", RubyVersion::new(3, 2, 3));
    let s = sources(Some("3.2.3"), Some("source 'https://rubygems.org'\nruby '3.0.6'\ngem 'rails'\n"));
    assert_eq!(br.ruby_version_from(&s), Some(v("3.2.3")));
}

#[test]
fn bundler_runtime_bin_dir_includes_ruby_version() {
    let br = BundlerRuntime::new("/sandbox/versioned-bins", RubyVersion::new(3, 3, 7));
    let bin_dir = br.bin_dir();
    assert!(bin_dir.ends_with("ruby/3.3.0/bin"));
    assert_eq!(bin_dir, "/sandbox/versioned-bins/.rb/vendor/bundler/ruby/3.3.0/bin");
}

#[test]
fn bundler_runtime_bin_dir_varies_by_ruby_version() {
    let runtime_337 = BundlerRuntime::new("/sandbox/multi-version", RubyVersion::new(3, 3, 7));
    let runtime_324 = BundlerRuntime::new("/sandbox/multi-version", RubyVersion::new(3, 2, 4));
    assert_ne!(runtime_337.bin_dir(), runtime_324.bin_dir());
    assert!(runtime_337.bin_dir().ends_with("ruby/3.3.0/bin"));
    assert!(runtime_324.bin_dir().ends_with("ruby/3.2.0/bin"));
}

#[test]
fn bundler_runtime_gem_dir_includes_ruby_version() {
    let br = BundlerRuntime::new("/sandbox/versioned-gems", RubyVersion::new(3, 3, 7));
    let ruby_vendor = br.ruby_vendor_dir(&RubyVersion::new(3, 3, 7));
    assert!(ruby_vendor.ends_with("ruby/3.3.0"));
    assert_eq!(ruby_vendor, "/sandbox/versioned-gems/.rb/vendor/bundler/ruby/3.3.0");
}

// ---- Butler runtime ----

#[test]
fn mod_test_butler_runtime_with_only_ruby() {
    let ruby = rt("3.2.1", "/opt/ruby-3.2.1");
    let butler = ButlerRuntime::new(ruby.clone(), None, ".");

    let bin_dirs = butler.bin_dirs(false);
    assert_eq!(bin_dirs.len(), 1);
    assert_eq!(bin_dirs[0], ruby.bin_dir());

    let gem_dirs = butler.gem_dirs(false);
    assert_eq!(gem_dirs.len(), 1);
    assert_eq!(gem_dirs[0], ruby.lib_dir());

    assert_eq!(butler.gem_home(), None);
}

#[test]
fn mod_test_butler_runtime_with_ruby_and_gem() {
    let ruby = rt("3.2.1", "/opt/ruby-3.2.1");
    let gem_runtime = GemRuntime::for_base_dir("/home/user/.gem", &ruby.version);
    let butler = ButlerRuntime::new(ruby.clone(), Some(gem_runtime.clone()), ".");

    let bin_dirs = butler.bin_dirs(false);
    assert_eq!(bin_dirs.len(), 2);
    assert_eq!(bin_dirs[0], gem_runtime.gem_bin);
    assert_eq!(bin_dirs[1], ruby.bin_dir());

    let gem_dirs = butler.gem_dirs(false);
    assert_eq!(gem_dirs.len(), 2);
    assert_eq!(gem_dirs[0], gem_runtime.gem_home);
    assert_eq!(gem_dirs[1], ruby.lib_dir());

    assert_eq!(butler.gem_home(), Some(gem_runtime.gem_home));
}

#[test]
fn test_build_path_without_existing() {
    let ruby = rt("3.1.0", "/opt/ruby-3.1.0");
    let butler = ButlerRuntime::new(ruby.clone(), None, ".");
    assert_eq!(butler.build_path(None, false), ruby.bin_dir());
}

#[test]
fn test_build_path_with_existing() {
    let ruby = rt("3.1.0", "/opt/ruby-3.1.0");
    let butler = ButlerRuntime::new(ruby.clone(), None, ".");
    let path = butler.build_path(Some("/usr/bin:/bin".to_string()), false);
    assert_eq!(path, format!("{}:/usr/bin:/bin", ruby.bin_dir()));
}

#[test]
fn test_build_path_with_multiple_bin_dirs() {
    let ruby = rt("3.1.0", "/opt/ruby-3.1.0");
    let gem_runtime = GemRuntime::for_base_dir("/home/user/.gem", &ruby.version);
    let butler = ButlerRuntime::new(ruby.clone(), Some(gem_runtime.clone()), ".");
    let path = butler.build_path(Some("/usr/bin".to_string()), false);
    assert_eq!(path, format!("{}:{}:/usr/bin", gem_runtime.gem_bin, ruby.bin_dir()));
}

#[test]
fn test_butler_runtime_empty_gem_runtime() {
    let ruby = rt("3.0.0", "/nonexistent/ruby");
    let butler = ButlerRuntime::new(ruby, None, ".");
    let bin_dirs = butler.bin_dirs(false);
    assert_eq!(bin_dirs.len(), 1);
    assert!(bin_dirs[0].ends_with("bin"));
    assert_eq!(butler.gem_dirs(false).len(), 1);
    assert_eq!(butler.gem_home(), None);
}
