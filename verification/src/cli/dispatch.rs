//! Which handler serves a command, and what the handlers that need a Ruby
//! environment ask of the discovery.
use vstd::prelude::*;
use crate::butler::{ButlerRuntime, opt_str};
use crate::cli::completion::{
    cursor_on_boundary, plan_completion, plan_spec, line_before_cursor, CompletionPlan,
};
use crate::cli::shell::Shell;
use crate::config::settings::{opt_text_value, with_resolved_version, TrackedConfig};
use crate::config::value::{source_label, ConfigSource, ConfigValue};
use crate::text::owned;
use crate::version::version_text;

verus! {

/// The `rb info` subcommands.
#[derive(Debug, Clone, Copy, PartialEq, Eq, Structural)]
pub enum InfoCommands {
    Runtime,
    Env,
    Project,
    Config,
}

/// The commands of `rb`.
#[derive(Debug, Clone, PartialEq, Eq)]
pub enum Commands {
    Version,
    Help { command: Option<String> },
    New,
    ShellIntegration { shell: Option<Shell> },
    BashComplete { line: String, point: String },
    Run { script: Option<String>, args: Vec<String> },
    Exec { args: Vec<String> },
    Sync,
    Info { command: InfoCommands },
}

/// The context of a command: the settings of the run and the project file
/// given with `-P`, if one was.
#[derive(Debug, Clone)]
pub struct CommandContext {
    pub config: TrackedConfig,
    pub project_file: Option<String>,
}

/// The handlers that need a Ruby environment.
#[derive(Debug, Clone, PartialEq, Eq)]
pub enum RuntimeCommand {
    Run { script: Option<String>, args: Vec<String> },
    Exec { args: Vec<String> },
    Sync,
    Info(InfoCommands),
}

/// The handler that serves a command.
#[derive(Debug, Clone, PartialEq, Eq)]
pub enum Dispatch {
    /// Print the version.
    Version,
    /// Print help, for a command when one is named.
    Help(Option<String>),
    /// Create a project file.
    New,
    /// Print a shell's integration script, or the list of integrations.
    ShellIntegration(Option<Shell>),
    /// Complete a command line.
    BashComplete { line: String, point: String },
    /// Show the configuration (no environment needed).
    InfoConfig,
    /// Discover the environment, then run the handler in it.
    WithRuntime(RuntimeCommand),
}

/// Decides which handler serves a command: the utility commands run
/// without a Ruby environment, and so does `info config`; the workflow
/// commands and the other `info` commands run in a discovered environment.
pub fn dispatch_command(command: Commands) -> (r: Dispatch)
    ensures
        match command {
            Commands::Version => r == Dispatch::Version,
            Commands::Help { command } => r == Dispatch::Help(command),
            Commands::New => r == Dispatch::New,
            Commands::ShellIntegration { shell } => r == Dispatch::ShellIntegration(shell),
            Commands::BashComplete { line, point } => r == Dispatch::BashComplete { line, point },
            Commands::Run { script, args } => r == Dispatch::WithRuntime(
                RuntimeCommand::Run { script, args },
            ),
            Commands::Exec { args } => r == Dispatch::WithRuntime(RuntimeCommand::Exec { args }),
            Commands::Sync => r == Dispatch::WithRuntime(RuntimeCommand::Sync),
            Commands::Info { command } => if command == InfoCommands::Config {
                r == Dispatch::InfoConfig
            } else {
                r == Dispatch::WithRuntime(RuntimeCommand::Info(command))
            },
        },
{
    match command {
        Commands::Version => Dispatch::Version,
        Commands::Help { command } => Dispatch::Help(command),
        Commands::New => Dispatch::New,
        Commands::ShellIntegration { shell } => Dispatch::ShellIntegration(shell),
        Commands::BashComplete { line, point } => Dispatch::BashComplete { line, point },
        Commands::Run { script, args } => Dispatch::WithRuntime(RuntimeCommand::Run { script, args }),
        Commands::Exec { args } => Dispatch::WithRuntime(RuntimeCommand::Exec { args }),
        Commands::Sync => Dispatch::WithRuntime(RuntimeCommand::Sync),
        Commands::Info { command } => match command {
            InfoCommands::Config => Dispatch::InfoConfig,
            _ => Dispatch::WithRuntime(RuntimeCommand::Info(command)),
        },
    }
}

/// What a discovery is asked for: the rubies directory, the requested
/// version, the custom gem base and whether Bundler is skipped.
#[derive(Debug, Clone)]
pub struct DiscoveryRequest {
    pub rubies_dir: String,
    pub requested_version: Option<String>,
    pub gem_base_dir: Option<String>,
    pub skip_bundler: bool,
}

/// The discovery a workflow command asks for: the configured rubies
/// directory, the version the configuration requests (a version still to
/// be resolved requests none), the configured gem home as the custom gem
/// base, and the configured Bundler switch.
pub fn runtime_request(context: &CommandContext) -> (r: DiscoveryRequest)
    ensures
        r.rubies_dir@ == context.config.rubies_dir.value@,
        opt_str(r.requested_version) == (match context.config.ruby_version {
            Some(v) => if v.source == ConfigSource::Unresolved {
                None
            } else {
                Some(v.value@)
            },
            None => None::<Seq<char>>,
        }),
        opt_str(r.gem_base_dir) == Some(context.config.gem_home.value@),
        r.skip_bundler == context.config.no_bundler.value,
{
    DiscoveryRequest {
        rubies_dir: context.config.rubies_dir.value.clone(),
        requested_version: context.config.ruby_version_for_runtime(),
        gem_base_dir: Some(context.config.gem_home.value.clone()),
        skip_bundler: context.config.no_bundler.value,
    }
}

/// The discovery completion asks for: as [`runtime_request`], but with the
/// configured version as it stands, resolved or not.
pub fn completion_request(context: &CommandContext) -> (r: DiscoveryRequest)
    ensures
        r.rubies_dir@ == context.config.rubies_dir.value@,
        opt_str(r.requested_version) == (match context.config.ruby_version {
            Some(v) => Some(v.value@),
            None => None::<Seq<char>>,
        }),
        opt_str(r.gem_base_dir) == Some(context.config.gem_home.value@),
        r.skip_bundler == context.config.no_bundler.value,
{
    DiscoveryRequest {
        rubies_dir: context.config.rubies_dir.value.clone(),
        requested_version: match &context.config.ruby_version {
            Some(v) => Some(v.value.clone()),
            None => None,
        },
        gem_base_dir: Some(context.config.gem_home.value.clone()),
        skip_bundler: context.config.no_bundler.value,
    }
}

/// After a discovery: a Ruby version still to be resolved becomes the
/// version of the Ruby that was selected, as `semver` displays it; nothing
/// else changes.
pub fn settle_resolved_version(context: &mut CommandContext, runtime: &ButlerRuntime)
    ensures
        final(context).project_file == old(context).project_file,
        final(context).config.rubies_dir == old(context).config.rubies_dir,
        final(context).config.gem_home == old(context).config.gem_home,
        final(context).config.no_bundler == old(context).config.no_bundler,
        final(context).config.work_dir == old(context).config.work_dir,
        (match old(context).config.ruby_version {
            Some(v) => v.source == ConfigSource::Unresolved && runtime.ruby_runtime is Some,
            None => false,
        }) ==> opt_text_value(final(context).config.ruby_version) == Some(
            (version_text(runtime.ruby_runtime.unwrap().version@), ConfigSource::Resolved),
        ),
        !(match old(context).config.ruby_version {
            Some(v) => v.source == ConfigSource::Unresolved && runtime.ruby_runtime is Some,
            None => false,
        }) ==> opt_text_value(final(context).config.ruby_version) == opt_text_value(
            old(context).config.ruby_version,
        ),
{
    if context.config.has_unresolved() {
        match runtime.selected_ruby() {
            Ok(ruby) => {
                let text = ruby.version.to_text();
                context.config.resolve_ruby_version(text);
            },
            Err(_) => {},
        }
    }
}

/// What `rb __bash_complete <line> <point>` completes the line with.
pub fn bash_complete_command(context: &CommandContext, line: &str, point: &str) -> (r: CompletionPlan)
    requires
        cursor_on_boundary(line@, point@),
    ensures
        r@ == plan_spec(line_before_cursor(line@, point@)),
{
    plan_completion(line, point)
}

/// What `rb shell-integration [shell]` prints.
#[derive(Debug, Clone, Copy, PartialEq, Eq, Structural)]
pub enum ShellIntegrationAction {
    /// The integration script of the shell (with instructions when the
    /// output is a terminal).
    Script(Shell),
    /// The list of the available integrations.
    List,
}

/// What `rb shell-integration` does: the shell's script when one is named,
/// the list of integrations otherwise.
pub fn shell_integration_command_wrapper(shell: Option<Shell>) -> (r: ShellIntegrationAction)
    ensures
        match shell {
            Some(s) => r == ShellIntegrationAction::Script(s),
            None => r == ShellIntegrationAction::List,
        },
{
    match shell {
        Some(s) => ShellIntegrationAction::Script(s),
        None => ShellIntegrationAction::List,
    }
}

/// One setting as `rb info config` shows it: its label, its value, where it
/// came from, and a note when there is one.
#[derive(Debug, Clone)]
pub struct ConfigReportEntry {
    pub label: String,
    pub value: String,
    pub source: String,
    pub note: Option<String>,
}

/// A report entry as plain values.
pub type EntryView = (Seq<char>, Seq<char>, Seq<char>, Option<Seq<char>>);

/// The report entries of the settings, in display order: rubies directory,
/// Ruby version (`latest` with source `default` when none is set; a note when
/// it is still to be resolved or absent), gem home, the Bundler switch
/// (`yes` or `no`) and the working directory.
pub open spec fn config_report_spec(c: TrackedConfig) -> Seq<EntryView> {
    seq![
        ("Rubies Directory:"@, c.rubies_dir.value@, source_label(c.rubies_dir.source), None),
        match c.ruby_version {
            Some(v) => (
                "Ruby Version:"@,
                v.value@,
                source_label(v.source),
                if v.source == ConfigSource::Unresolved {
                    Some("Will be resolved to latest available Ruby"@)
                } else {
                    None
                },
            ),
            None => (
                "Ruby Version:"@,
                "latest"@,
                "default"@,
                Some("Will use latest available Ruby"@),
            ),
        },
        ("Gem Home:"@, c.gem_home.value@, source_label(c.gem_home.source), None),
        (
            "No Bundler:"@,
            if c.no_bundler.value {
                "yes"@
            } else {
                "no"@
            },
            source_label(c.no_bundler.source),
            None,
        ),
        ("Working Directory:"@, c.work_dir.value@, source_label(c.work_dir.source), None),
    ]
}

/// The views of report entries.
pub open spec fn entries_view(v: Seq<ConfigReportEntry>) -> Seq<EntryView> {
    v.map_values(
        |e: ConfigReportEntry|
            (
                e.label@,
                e.value@,
                e.source@,
                match e.note {
                    Some(n) => Some(n@),
                    None => None,
                },
            ),
    )
}

fn entry(label: &str, value: String, source: ConfigSource, note: Option<&str>) -> (r: ConfigReportEntry)
    ensures
        r.label@ == label@,
        r.value@ == value@,
        r.source@ == source_label(source),
        match note {
            Some(n) => r.note matches Some(m) && m@ == n@,
            None => r.note is None,
        },
{
    ConfigReportEntry {
        label: owned(label),
        value,
        source: owned(source.label()),
        note: match note {
            Some(n) => Some(owned(n)),
            None => None,
        },
    }
}

/// The settings as `rb info config` shows them (see [`config_report_spec`]).
pub fn info_config_command(config: &TrackedConfig) -> (r: Vec<ConfigReportEntry>)
    ensures
        entries_view(r@) == config_report_spec(*config),
{
    let mut v: Vec<ConfigReportEntry> = Vec::new();
    v.push(entry("Rubies Directory:", config.rubies_dir.value.clone(), config.rubies_dir.source, None));
    match &config.ruby_version {
        Some(rv) => {
            let note = if rv.source == ConfigSource::Unresolved {
                Some("Will be resolved to latest available Ruby")
            } else {
                None
            };
            v.push(entry("Ruby Version:", rv.value.clone(), rv.source, note));
        },
        None => {
            v.push(
                entry(
                    "Ruby Version:",
                    owned("latest"),
                    ConfigSource::Default,
                    Some("Will use latest available Ruby"),
                ),
            );
        },
    }
    v.push(entry("Gem Home:", config.gem_home.value.clone(), config.gem_home.source, None));
    let flag = if config.no_bundler.value {
        owned("yes")
    } else {
        owned("no")
    };
    v.push(entry("No Bundler:", flag, config.no_bundler.source, None));
    v.push(entry("Working Directory:", config.work_dir.value.clone(), config.work_dir.source, None));
    proof {
        assert(source_label(ConfigSource::Default) == "default"@) by {
            reveal_strlit("default");
        }
        assert(entries_view(v@) =~= config_report_spec(*config));
    }
    v
}

} // verus!
