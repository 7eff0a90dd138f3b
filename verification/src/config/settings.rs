//! The settings of a run, from the command line, the configuration file, the
//! environment and built-in defaults.
use vstd::prelude::*;
use crate::config::value::{ConfigSource, ConfigValue};
use crate::path::{join, path_join};
use crate::text::{bool_from_text, owned, parse_bool};

verus! {

/// The settings shared by the command line and the configuration file; a
/// setting that was not given is `None`. Paths are held as text.
#[derive(Debug, Clone, Default, PartialEq, Eq)]
pub struct RbConfig {
    pub rubies_dir: Option<String>,
    pub ruby_version: Option<String>,
    pub gem_home: Option<String>,
    pub no_bundler: Option<bool>,
    pub work_dir: Option<String>,
}

/// `a` if it is set, `b` otherwise.
pub open spec fn first_set<A>(a: Option<A>, b: Option<A>) -> Option<A> {
    if a is Some {
        a
    } else {
        b
    }
}

/// The outcome of `a.merge_with(b)`: each setting of `a`, or that of `b`
/// where `a` has none.
pub open spec fn config_merged(a: RbConfig, b: RbConfig) -> RbConfig {
    RbConfig {
        rubies_dir: first_set(a.rubies_dir, b.rubies_dir),
        ruby_version: first_set(a.ruby_version, b.ruby_version),
        gem_home: first_set(a.gem_home, b.gem_home),
        no_bundler: first_set(a.no_bundler, b.no_bundler),
        work_dir: first_set(a.work_dir, b.work_dir),
    }
}

/// A configuration with nothing set.
pub open spec fn empty_config() -> RbConfig {
    RbConfig { rubies_dir: None, ruby_version: None, gem_home: None, no_bundler: None, work_dir: None }
}

impl RbConfig {
    /// A configuration with nothing set.
    pub fn empty() -> (r: RbConfig)
        ensures
            r == empty_config(),
    {
        RbConfig { rubies_dir: None, ruby_version: None, gem_home: None, no_bundler: None, work_dir: None }
    }

    /// Merges two configurations, preferring the settings of `self` (the
    /// command line) over those of `other` (the configuration file).
    pub fn merge_with(&mut self, other: RbConfig)
        ensures
            *final(self) == config_merged(*old(self), other),
    {
        if self.rubies_dir.is_none() {
            self.rubies_dir = other.rubies_dir;
        }
        if self.ruby_version.is_none() {
            self.ruby_version = other.ruby_version;
        }
        if self.gem_home.is_none() {
            self.gem_home = other.gem_home;
        }
        if self.no_bundler.is_none() {
            self.no_bundler = other.no_bundler;
        }
        if self.work_dir.is_none() {
            self.work_dir = other.work_dir;
        }
    }
}

/// Merging with an empty configuration changes nothing, on either side.
pub proof fn law_merge_with_empty_is_identity(a: RbConfig)
    ensures
        config_merged(a, empty_config()) == a,
        config_merged(empty_config(), a) == a,
{
}

/// A setting given on the command line is never overridden by the file.
pub proof fn law_cli_settings_take_precedence(cli: RbConfig, file: RbConfig)
    ensures
        cli.rubies_dir is Some ==> config_merged(cli, file).rubies_dir == cli.rubies_dir,
        cli.ruby_version is Some ==> config_merged(cli, file).ruby_version == cli.ruby_version,
        cli.gem_home is Some ==> config_merged(cli, file).gem_home == cli.gem_home,
        cli.no_bundler is Some ==> config_merged(cli, file).no_bundler == cli.no_bundler,
        cli.work_dir is Some ==> config_merged(cli, file).work_dir == cli.work_dir,
{
}

/// Merging is idempotent and associative.
pub proof fn law_config_merge_algebra(a: RbConfig, b: RbConfig, c: RbConfig)
    ensures
        config_merged(config_merged(a, b), b) == config_merged(a, b),
        config_merged(config_merged(a, b), c) == config_merged(a, config_merged(b, c)),
{
}

/// What the environment and the system supply to the configuration: the
/// `RB_*` variables as read (text), the home directory and the working
/// directory, each `None` when unavailable.
#[derive(Debug, Clone, Default)]
pub struct ConfigEnvironment {
    pub rubies_dir: Option<String>,
    pub ruby_version: Option<String>,
    pub gem_home: Option<String>,
    pub no_bundler: Option<String>,
    pub work_dir: Option<String>,
    pub home_dir: Option<String>,
    pub current_dir: Option<String>,
}

/// The settings of a run, each with the source it came from.
#[derive(Debug, Clone)]
pub struct TrackedConfig {
    pub rubies_dir: ConfigValue<String>,
    pub ruby_version: Option<ConfigValue<String>>,
    pub gem_home: ConfigValue<String>,
    pub no_bundler: ConfigValue<bool>,
    pub work_dir: ConfigValue<String>,
}

/// The text of a value, or `.` when there is none.
pub open spec fn or_dot(p: Option<String>) -> Seq<char> {
    match p {
        Some(s) => s@,
        None => "."@,
    }
}

/// Where a setting with a default comes from, in order of precedence:
/// command line, environment, file, default.
pub open spec fn pick_with_default<A>(cli: Option<A>, env: Option<A>, file: Option<A>, default: A)
    -> (A, ConfigSource) {
    if cli is Some {
        (cli->0, ConfigSource::Cli)
    } else if env is Some {
        (env->0, ConfigSource::EnvVar)
    } else if file is Some {
        (file->0, ConfigSource::ConfigFile)
    } else {
        (default, ConfigSource::Default)
    }
}

/// A setting given on the command line always wins; otherwise one from the
/// environment wins over the configuration file; the default is taken only
/// when no source gives the setting.
pub proof fn law_setting_precedence<A>(cli: Option<A>, env: Option<A>, file: Option<A>, default: A)
    ensures
        cli matches Some(c) ==> pick_with_default(cli, env, file, default) == (c, ConfigSource::Cli),
        cli is None && env is Some ==> pick_with_default(cli, env, file, default) == (
            env->0,
            ConfigSource::EnvVar,
        ),
        pick_with_default(cli, env, file, default).1 == ConfigSource::Default <==> (cli is None
            && env is None && file is None),
{
}

/// The Ruby version setting after recording the version discovery selected:
/// an unresolved setting takes it, an absent one becomes it (as resolved), an
/// explicit one is kept.
pub open spec fn with_resolved_version(setting: Option<ConfigValue<String>>, version: String) -> Option<
    ConfigValue<String>,
> {
    match setting {
        Some(v) => if v.source == ConfigSource::Unresolved {
            Some(ConfigValue { value: version, source: ConfigSource::Resolved })
        } else {
            Some(v)
        },
        None => Some(ConfigValue { value: version, source: ConfigSource::Resolved }),
    }
}

/// The view of a text setting: its text and its source.
pub open spec fn text_value(v: ConfigValue<String>) -> (Seq<char>, ConfigSource) {
    (v.value@, v.source)
}

/// The views of an optional text.
pub open spec fn opt_text(o: Option<String>) -> Option<Seq<char>> {
    match o {
        Some(s) => Some(s@),
        None => None,
    }
}

/// `RB_NO_BUNDLER` as a boolean, when it reads `true` or `false`.
pub open spec fn env_flag(o: Option<String>) -> Option<bool> {
    match o {
        Some(s) => bool_from_text(s@),
        None => None,
    }
}

/// The Ruby version setting: command line, environment or file, else none.
pub open spec fn pick_version(cli: Option<String>, env: Option<String>, file: Option<String>)
    -> Option<(Seq<char>, ConfigSource)> {
    if cli is Some {
        Some((cli->0@, ConfigSource::Cli))
    } else if env is Some {
        Some((env->0@, ConfigSource::EnvVar))
    } else if file is Some {
        Some((file->0@, ConfigSource::ConfigFile))
    } else {
        None
    }
}

/// The view of an optional text setting.
pub open spec fn opt_text_value(v: Option<ConfigValue<String>>) -> Option<(Seq<char>, ConfigSource)> {
    match v {
        Some(c) => Some((c.value@, c.source)),
        None => None,
    }
}

fn pick_path(cli: &Option<String>, env: &Option<String>, file: &Option<String>, default: String) -> (r:
    ConfigValue<String>)
    ensures
        text_value(r) == pick_with_default(opt_text(*cli), opt_text(*env), opt_text(*file), default@),
{
    if let Some(p) = cli {
        ConfigValue::from_cli(p.clone())
    } else if let Some(p) = env {
        ConfigValue::from_env(p.clone())
    } else if let Some(p) = file {
        ConfigValue::from_file(p.clone())
    } else {
        ConfigValue::default_value(default)
    }
}

fn home_or_dot(home: &Option<String>) -> (r: String)
    ensures
        r@ == or_dot(*home),
{
    match home {
        Some(h) => h.clone(),
        None => owned("."),
    }
}

impl TrackedConfig {
    /// Builds the settings of a run. For each setting the command line wins,
    /// then the environment, then the configuration file, then the default:
    /// `~/.rubies` and `~/.gem` (with `.` for an unknown home), the working
    /// directory (or `.`), no Ruby version and bundler enabled.
    pub fn from_merged(cli_config: &RbConfig, file_config: &RbConfig, env: &ConfigEnvironment) -> (r:
        TrackedConfig)
        ensures
            text_value(r.rubies_dir) == pick_with_default(
                opt_text(cli_config.rubies_dir),
                opt_text(env.rubies_dir),
                opt_text(file_config.rubies_dir),
                path_join(or_dot(env.home_dir), ".rubies"@),
            ),
            opt_text_value(r.ruby_version) == pick_version(
                cli_config.ruby_version,
                env.ruby_version,
                file_config.ruby_version,
            ),
            text_value(r.gem_home) == pick_with_default(
                opt_text(cli_config.gem_home),
                opt_text(env.gem_home),
                opt_text(file_config.gem_home),
                path_join(or_dot(env.home_dir), ".gem"@),
            ),
            (r.no_bundler.value, r.no_bundler.source) == pick_with_default(
                cli_config.no_bundler,
                env_flag(env.no_bundler),
                file_config.no_bundler,
                false,
            ),
            text_value(r.work_dir) == pick_with_default(
                opt_text(cli_config.work_dir),
                opt_text(env.work_dir),
                opt_text(file_config.work_dir),
                or_dot(env.current_dir),
            ),
    {
        let home = home_or_dot(&env.home_dir);
        let default_rubies = join(home.as_str(), ".rubies");
        let default_gems = join(home.as_str(), ".gem");
        let default_work = home_or_dot(&env.current_dir);
        let rubies_dir = pick_path(
            &cli_config.rubies_dir,
            &env.rubies_dir,
            &file_config.rubies_dir,
            default_rubies,
        );
        let ruby_version = if let Some(v) = &cli_config.ruby_version {
            Some(ConfigValue::from_cli(v.clone()))
        } else if let Some(v) = &env.ruby_version {
            Some(ConfigValue::from_env(v.clone()))
        } else if let Some(v) = &file_config.ruby_version {
            Some(ConfigValue::from_file(v.clone()))
        } else {
            None
        };
        let gem_home = pick_path(&cli_config.gem_home, &env.gem_home, &file_config.gem_home, default_gems);
        let env_no_bundler = match &env.no_bundler {
            Some(t) => parse_bool(t.as_str()),
            None => None,
        };
        let no_bundler = if let Some(b) = cli_config.no_bundler {
            ConfigValue::from_cli(b)
        } else if let Some(b) = env_no_bundler {
            ConfigValue::from_env(b)
        } else if let Some(b) = file_config.no_bundler {
            ConfigValue::from_file(b)
        } else {
            ConfigValue::default_value(false)
        };
        let work_dir = pick_path(&cli_config.work_dir, &env.work_dir, &file_config.work_dir, default_work);
        TrackedConfig { rubies_dir, ruby_version, gem_home, no_bundler, work_dir }
    }

    /// Back to a plain configuration, every setting filled.
    pub fn to_rb_config(&self) -> (r: RbConfig)
        ensures
            opt_text(r.rubies_dir) == Some(self.rubies_dir.value@),
            opt_text(r.ruby_version) == (match self.ruby_version {
                Some(v) => Some(v.value@),
                None => None::<Seq<char>>,
            }),
            opt_text(r.gem_home) == Some(self.gem_home.value@),
            r.no_bundler == Some(self.no_bundler.value),
            opt_text(r.work_dir) == Some(self.work_dir.value@),
    {
        RbConfig {
            rubies_dir: Some(self.rubies_dir.value.clone()),
            ruby_version: match &self.ruby_version {
                Some(v) => Some(v.value.clone()),
                None => None,
            },
            gem_home: Some(self.gem_home.value.clone()),
            no_bundler: Some(self.no_bundler.value),
            work_dir: Some(self.work_dir.value.clone()),
        }
    }

    /// The Ruby version to request from discovery: the setting, unless it is
    /// unresolved.
    pub fn ruby_version_for_runtime(&self) -> (r: Option<String>)
        ensures
            opt_text(r) == (match self.ruby_version {
                Some(v) => if v.source == ConfigSource::Unresolved {
                    None
                } else {
                    Some(v.value@)
                },
                None => None::<Seq<char>>,
            }),
    {
        match &self.ruby_version {
            Some(v) => if v.is_unresolved() {
                None
            } else {
                Some(v.value.clone())
            },
            None => None,
        }
    }

    /// Records the Ruby version that discovery selected: an unresolved
    /// setting takes it, an absent one becomes it (as resolved), an explicit
    /// one is kept.
    pub fn resolve_ruby_version(&mut self, resolved_version: String)
        ensures
            final(self).rubies_dir == old(self).rubies_dir,
            final(self).gem_home == old(self).gem_home,
            final(self).no_bundler == old(self).no_bundler,
            final(self).work_dir == old(self).work_dir,
            final(self).ruby_version == with_resolved_version(old(self).ruby_version, resolved_version),
    {
        match self.ruby_version.take() {
            Some(mut v) => {
                if v.is_unresolved() {
                    v.resolve(resolved_version);
                }
                self.ruby_version = Some(v);
            },
            None => {
                self.ruby_version = Some(ConfigValue::resolved(resolved_version));
            },
        }
    }

    /// Is any setting still unresolved?
    pub fn has_unresolved(&self) -> (r: bool)
        ensures
            r == (self.ruby_version is Some && self.ruby_version->0.source
                == ConfigSource::Unresolved),
    {
        match &self.ruby_version {
            Some(v) => v.is_unresolved(),
            None => false,
        }
    }
}

/// Once the selected version is recorded nothing is unresolved, an explicit
/// setting is kept, and recording again changes nothing.
pub proof fn law_resolution_settles_config(setting: Option<ConfigValue<String>>, version: String)
    ensures
        with_resolved_version(setting, version) is Some,
        with_resolved_version(setting, version)->0.source != ConfigSource::Unresolved,
        setting is Some && setting->0.source != ConfigSource::Unresolved ==> with_resolved_version(
            setting,
            version,
        ) == setting,
        with_resolved_version(with_resolved_version(setting, version), version)
            == with_resolved_version(setting, version),
{
}

} // verus!
