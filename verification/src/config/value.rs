//! A configuration value together with its source.
use vstd::prelude::*;

verus! {

/// Source of a configuration value.
#[derive(Debug, Clone, Copy, PartialEq, Eq, Structural)]
pub enum ConfigSource {
    /// Not yet resolved; determined during environment discovery.
    Unresolved,
    /// Built-in default value.
    Default,
    /// From an environment variable.
    EnvVar,
    /// From the configuration file (rb.toml or rb.kdl).
    ConfigFile,
    /// From a command-line argument.
    Cli,
    /// Resolved during environment discovery.
    Resolved,
}

/// The priority of a source: a higher one takes precedence in a merge. The
/// order is the one the settings are built in (see
/// `TrackedConfig::from_merged`): command line, environment, configuration
/// file, default; a version resolved by discovery ranks just below the
/// command line, and an unresolved one below everything.
pub open spec fn source_priority(s: ConfigSource) -> nat {
    match s {
        ConfigSource::Unresolved => 0,
        ConfigSource::Default => 1,
        ConfigSource::ConfigFile => 2,
        ConfigSource::EnvVar => 3,
        ConfigSource::Resolved => 4,
        ConfigSource::Cli => 5,
    }
}

/// The name under which a source is shown to the user.
pub open spec fn source_label(s: ConfigSource) -> Seq<char> {
    match s {
        ConfigSource::Unresolved => "unresolved"@,
        ConfigSource::Default => "default"@,
        ConfigSource::EnvVar => "environment"@,
        ConfigSource::ConfigFile => "config file"@,
        ConfigSource::Cli => "CLI argument"@,
        ConfigSource::Resolved => "auto-resolved"@,
    }
}

impl ConfigSource {
    /// Priority of this source (higher takes precedence).
    pub fn priority(self) -> (r: u8)
        ensures
            r == source_priority(self),
    {
        match self {
            ConfigSource::Unresolved => 0,
            ConfigSource::Default => 1,
            ConfigSource::ConfigFile => 2,
            ConfigSource::EnvVar => 3,
            ConfigSource::Resolved => 4,
            ConfigSource::Cli => 5,
        }
    }

    /// Is this the built-in default?
    pub fn is_default(self) -> (r: bool)
        ensures
            r == (self == ConfigSource::Default),
    {
        self == ConfigSource::Default
    }

    /// How this source is shown (its `Display`).
    pub fn label(self) -> (r: &'static str)
        ensures
            r@ == source_label(self),
    {
        match self {
            ConfigSource::Unresolved => "unresolved",
            ConfigSource::Default => "default",
            ConfigSource::EnvVar => "environment",
            ConfigSource::ConfigFile => "config file",
            ConfigSource::Cli => "CLI argument",
            ConfigSource::Resolved => "auto-resolved",
        }
    }
}

/// A configuration value with the source it came from.
#[derive(Debug, Clone)]
pub struct ConfigValue<T> {
    pub value: T,
    pub source: ConfigSource,
}

/// The outcome of `a.merge_with(b)`: `b` when its source has the higher
/// priority, `a` otherwise.
pub open spec fn merged<T>(a: ConfigValue<T>, b: ConfigValue<T>) -> ConfigValue<T> {
    if source_priority(b.source) > source_priority(a.source) {
        b
    } else {
        a
    }
}

/// The outcome of `v.resolve(new_value)`: an unresolved value takes the new
/// value and becomes resolved; any other value is left as it is.
pub open spec fn resolved_with<T>(v: ConfigValue<T>, new_value: T) -> ConfigValue<T> {
    if v.source == ConfigSource::Unresolved {
        ConfigValue { value: new_value, source: ConfigSource::Resolved }
    } else {
        v
    }
}

/// Was the value set explicitly (command line, config file or environment)?
pub open spec fn is_explicit_source(s: ConfigSource) -> bool {
    s == ConfigSource::Cli || s == ConfigSource::ConfigFile || s == ConfigSource::EnvVar
}

impl<T> ConfigValue<T> {
    /// A value with the given source.
    pub fn new(value: T, source: ConfigSource) -> (r: Self)
        ensures
            r.value == value,
            r.source == source,
    {
        ConfigValue { value, source }
    }

    /// A built-in default value.
    pub fn default_value(value: T) -> (r: Self)
        ensures
            r.value == value,
            r.source == ConfigSource::Default,
    {
        ConfigValue { value, source: ConfigSource::Default }
    }

    /// A value from the environment.
    pub fn from_env(value: T) -> (r: Self)
        ensures
            r.value == value,
            r.source == ConfigSource::EnvVar,
    {
        ConfigValue { value, source: ConfigSource::EnvVar }
    }

    /// A value from the configuration file.
    pub fn from_file(value: T) -> (r: Self)
        ensures
            r.value == value,
            r.source == ConfigSource::ConfigFile,
    {
        ConfigValue { value, source: ConfigSource::ConfigFile }
    }

    /// A value from the command line.
    pub fn from_cli(value: T) -> (r: Self)
        ensures
            r.value == value,
            r.source == ConfigSource::Cli,
    {
        ConfigValue { value, source: ConfigSource::Cli }
    }

    /// A placeholder, to be resolved later.
    pub fn unresolved(value: T) -> (r: Self)
        ensures
            r.value == value,
            r.source == ConfigSource::Unresolved,
    {
        ConfigValue { value, source: ConfigSource::Unresolved }
    }

    /// A value resolved during environment discovery.
    pub fn resolved(value: T) -> (r: Self)
        ensures
            r.value == value,
            r.source == ConfigSource::Resolved,
    {
        ConfigValue { value, source: ConfigSource::Resolved }
    }

    /// Is this value unresolved?
    pub fn is_unresolved(&self) -> (r: bool)
        ensures
            r == (self.source == ConfigSource::Unresolved),
    {
        self.source == ConfigSource::Unresolved
    }

    /// Was this value set explicitly (command line, config file or environment)?
    pub fn is_explicit(&self) -> (r: bool)
        ensures
            r == is_explicit_source(self.source),
    {
        match self.source {
            ConfigSource::Cli | ConfigSource::ConfigFile | ConfigSource::EnvVar => true,
            _ => false,
        }
    }

    /// Takes `new_value` and becomes resolved, if this value was unresolved.
    pub fn resolve(&mut self, new_value: T)
        ensures
            *final(self) == resolved_with(*old(self), new_value),
    {
        if self.source == ConfigSource::Unresolved {
            self.value = new_value;
            self.source = ConfigSource::Resolved;
        }
    }

    /// Replaces the value, returning the old one; an unresolved value becomes
    /// resolved.
    pub fn resolve_replace(&mut self, new_value: T) -> (r: T)
        ensures
            r == old(self).value,
            final(self).value == new_value,
            final(self).source == (if old(self).source == ConfigSource::Unresolved {
                ConfigSource::Resolved
            } else {
                old(self).source
            }),
    {
        let mut old_value = new_value;
        std::mem::swap(&mut self.value, &mut old_value);
        if self.source == ConfigSource::Unresolved {
            self.source = ConfigSource::Resolved;
        }
        old_value
    }

    /// The inner value.
    pub fn get(&self) -> (r: &T)
        ensures
            *r == self.value,
    {
        &self.value
    }

    /// The inner value, mutably; the source is kept.
    pub fn get_mut(&mut self) -> (r: &mut T)
        ensures
            *r == old(self).value,
            final(self).value == *final(r),
            final(self).source == old(self).source,
    {
        &mut self.value
    }

    /// Takes the inner value.
    pub fn into_inner(self) -> (r: T)
        ensures
            r == self.value,
    {
        self.value
    }

    /// Maps the value, keeping the source.
    pub fn map<U, F: FnOnce(T) -> U>(self, f: F) -> (r: ConfigValue<U>)
        requires
            f.requires((self.value,)),
        ensures
            f.ensures((self.value,), r.value),
            r.source == self.source,
    {
        let source = self.source;
        ConfigValue { value: f(self.value), source }
    }

    /// Takes `other` when its source has a higher priority.
    /// Priority: CLI > resolved > environment > config file > default > unresolved.
    pub fn merge_with(&mut self, other: ConfigValue<T>)
        ensures
            *final(self) == merged(*old(self), other),
    {
        let self_priority = self.source.priority();
        let other_priority = other.source.priority();
        if other_priority > self_priority {
            *self = other;
        }
    }
}

/// The sources are ranked strictly: unresolved, default, config file,
/// environment, resolved, command line, from lowest to highest.
pub proof fn law_priority_is_strict(a: ConfigSource, b: ConfigSource)
    ensures
        (source_priority(a) == source_priority(b)) <==> (a == b),
        source_priority(ConfigSource::Unresolved) < source_priority(ConfigSource::Default),
        source_priority(ConfigSource::Default) < source_priority(ConfigSource::ConfigFile),
        source_priority(ConfigSource::ConfigFile) < source_priority(ConfigSource::EnvVar),
        source_priority(ConfigSource::EnvVar) < source_priority(ConfigSource::Resolved),
        source_priority(ConfigSource::Resolved) < source_priority(ConfigSource::Cli),
{
}

/// A merge keeps the value of higher priority: its source is the higher of
/// the two, and it is one of the two values.
pub proof fn law_merge_keeps_higher_priority<T>(a: ConfigValue<T>, b: ConfigValue<T>)
    ensures
        source_priority(merged(a, b).source) >= source_priority(a.source),
        source_priority(merged(a, b).source) >= source_priority(b.source),
        merged(a, b) == a || merged(a, b) == b,
{
}

/// A command-line value is never replaced by a merge.
pub proof fn law_cli_value_survives_merge<T>(a: ConfigValue<T>, b: ConfigValue<T>)
    requires
        a.source == ConfigSource::Cli,
    ensures
        merged(a, b) == a,
{
}

/// Merging the same value twice changes nothing more than merging it once.
pub proof fn law_merge_idempotent<T>(a: ConfigValue<T>, b: ConfigValue<T>)
    ensures
        merged(merged(a, b), b) == merged(a, b),
{
}

/// The order in which three values are merged does not matter.
pub proof fn law_merge_associative<T>(a: ConfigValue<T>, b: ConfigValue<T>, c: ConfigValue<T>)
    ensures
        merged(merged(a, b), c) == merged(a, merged(b, c)),
{
}

/// Resolution touches only unresolved values: an explicit or default value is
/// kept, and a resolved value is never unresolved again.
pub proof fn law_resolve_only_unresolved<T>(v: ConfigValue<T>, new_value: T)
    ensures
        v.source != ConfigSource::Unresolved ==> resolved_with(v, new_value) == v,
        resolved_with(v, new_value).source != ConfigSource::Unresolved,
        resolved_with(resolved_with(v, new_value), new_value) == resolved_with(v, new_value),
{
}

} // verus!
