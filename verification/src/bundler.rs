//! Bundler projects: where a bundle keeps its gems, and how it is brought
//! in sync with its Gemfile.
//!
//! The paths of a bundle are computed here. Synchronising runs `bundle`
//! several times; the program runs each command and hands its outcome to
//! [`sync_advance`], which decides what comes next.
use vstd::prelude::*;
use crate::gem_paths::texts;
use crate::path::{join, path_join};
use crate::search::{find_upwards, nth_ancestor};
use crate::text::{concat, contains_text, owned, str_contains, trim, trim_str};
use crate::version::{RubyVersionExt, abi_text, decimal, decimal_text, opt_parts, RubyVersion, VersionParts};
use crate::version_detector::{first_detected, CompositeDetector, RubyVersionDetector, VersionSources};

verus! {

/// A Bundler project: the directory holding the Gemfile and the Ruby version
/// the bundle is for.
#[derive(Debug, Clone, PartialEq, Eq)]
pub struct BundlerRuntime {
    pub root: String,
    pub ruby_version: RubyVersion,
}

/// `<root>/.rb`.
pub open spec fn app_config_dir_of(root: Seq<char>) -> Seq<char> {
    path_join(root, ".rb"@)
}

/// `<root>/.rb/vendor/bundler`.
pub open spec fn vendor_dir_of(root: Seq<char>) -> Seq<char> {
    path_join(path_join(app_config_dir_of(root), "vendor"@), "bundler"@)
}

/// `<root>/.rb/vendor/bundler/ruby/<major.minor.0>`.
pub open spec fn ruby_vendor_dir_of(root: Seq<char>, v: VersionParts) -> Seq<char> {
    path_join(path_join(vendor_dir_of(root), "ruby"@), abi_text(v))
}

impl BundlerRuntime {
    /// A Bundler project rooted at `root`, for the given Ruby version.
    pub fn new(root: &str, ruby_version: RubyVersion) -> (r: BundlerRuntime)
        ensures
            r.root@ == root@,
            r.ruby_version == ruby_version,
    {
        BundlerRuntime { root: owned(root), ruby_version }
    }

    /// A copy of this project.
    pub fn duplicate(&self) -> (r: BundlerRuntime)
        ensures
            r.root@ == self.root@,
            r.ruby_version@ == self.ruby_version@,
    {
        BundlerRuntime { root: self.root.clone(), ruby_version: self.ruby_version.duplicate() }
    }

    /// `<root>/Gemfile`.
    pub fn gemfile_path(&self) -> (r: String)
        ensures
            r@ == path_join(self.root@, "Gemfile"@),
    {
        join(self.root.as_str(), "Gemfile")
    }

    /// The application config directory `<root>/.rb`.
    pub fn app_config_dir(&self) -> (r: String)
        ensures
            r@ == app_config_dir_of(self.root@),
    {
        join(self.root.as_str(), ".rb")
    }

    /// The vendor directory `<root>/.rb/vendor/bundler`.
    pub fn vendor_dir(&self) -> (r: String)
        ensures
            r@ == vendor_dir_of(self.root@),
    {
        let c = self.app_config_dir();
        let v = join(c.as_str(), "vendor");
        join(v.as_str(), "bundler")
    }

    /// The vendor directory of a Ruby ABI version:
    /// `<root>/.rb/vendor/bundler/ruby/<major.minor.0>`.
    pub fn ruby_vendor_dir(&self, ruby_version: &RubyVersion) -> (r: String)
        ensures
            r@ == ruby_vendor_dir_of(self.root@, ruby_version@),
    {
        let v = self.vendor_dir();
        let r = join(v.as_str(), "ruby");
        let abi = ruby_version.ruby_abi_version();
        join(r.as_str(), abi.as_str())
    }

    /// The directory of the bundle's executables:
    /// `<root>/.rb/vendor/bundler/ruby/<major.minor.0>/bin`.
    pub fn bin_dir(&self) -> (r: String)
        ensures
            r@ == path_join(ruby_vendor_dir_of(self.root@, self.ruby_version@), "bin"@),
    {
        let d = self.ruby_vendor_dir(&self.ruby_version);
        join(d.as_str(), "bin")
    }

    /// The Ruby version the project asks for, from its `.ruby-version` file
    /// or else its Gemfile (the texts read from the project root).
    pub fn ruby_version_from(&self, sources: &VersionSources) -> (r: Option<RubyVersion>)
        ensures
            opt_parts(r) == first_detected(
                seq![RubyVersionDetector::RubyVersionFile, RubyVersionDetector::Gemfile],
                *sources,
            ),
    {
        CompositeDetector::standard().detect(sources)
    }

    /// The bin directory the bundle contributes to `PATH`: only once the
    /// bundle is configured (its vendor directory exists).
    pub fn provided_bin_dir(&self, configured: bool) -> (r: Option<String>)
        ensures
            configured ==> (r matches Some(d) && d@ == path_join(
                ruby_vendor_dir_of(self.root@, self.ruby_version@),
                "bin"@,
            )),
            !configured ==> r is None,
    {
        if configured {
            Some(self.bin_dir())
        } else {
            None
        }
    }

    /// The gem directory the bundle contributes: only once the bundle is
    /// configured.
    pub fn provided_gem_dir(&self, configured: bool) -> (r: Option<String>)
        ensures
            configured ==> (r matches Some(d) && d@ == ruby_vendor_dir_of(
                self.root@,
                self.ruby_version@,
            )),
            !configured ==> r is None,
    {
        if configured {
            Some(self.ruby_vendor_dir(&self.ruby_version))
        } else {
            None
        }
    }

    /// The arguments of a `bundle` command of the synchronisation.
    pub fn command_args(&self, command: BundleCommand) -> (r: Vec<String>)
        ensures
            texts(r@) == bundle_args(command, self.root@),
    {
        let mut v: Vec<String> = Vec::new();
        match command {
            BundleCommand::ConfigurePath => {
                v.push(owned("config"));
                v.push(owned("path"));
                v.push(owned("--local"));
                v.push(self.vendor_dir());
            },
            BundleCommand::Check => {
                v.push(owned("check"));
            },
            BundleCommand::QuietLock | BundleCommand::Lock => {
                v.push(owned("lock"));
                v.push(owned("--local"));
            },
            BundleCommand::Install => {
                v.push(owned("install"));
            },
        }
        proof {
            assert(texts(v@) =~= bundle_args(command, self.root@));
        }
        v
    }
}

/// The result of a synchronisation.
#[derive(Debug, Clone, Copy, PartialEq, Eq, Structural)]
pub enum SyncResult {
    /// The bundle was already in sync.
    AlreadySynced,
    /// The bundle was installed.
    Synchronized,
}

/// The `bundle` commands of a synchronisation, all run in the project root.
#[derive(Debug, Clone, Copy, PartialEq, Eq, Structural)]
pub enum BundleCommand {
    /// `bundle config path --local <vendor dir>`.
    ConfigurePath,
    /// `bundle check`.
    Check,
    /// `bundle lock --local`, its output discarded and its failure ignored.
    QuietLock,
    /// `bundle lock --local`, its output shown.
    Lock,
    /// `bundle install`, its output shown.
    Install,
}

/// The arguments of each command.
pub open spec fn bundle_args(c: BundleCommand, root: Seq<char>) -> Seq<Seq<char>> {
    match c {
        BundleCommand::ConfigurePath => seq!["config"@, "path"@, "--local"@, vendor_dir_of(root)],
        BundleCommand::Check => seq!["check"@],
        BundleCommand::QuietLock => seq!["lock"@, "--local"@],
        BundleCommand::Lock => seq!["lock"@, "--local"@],
        BundleCommand::Install => seq!["install"@],
    }
}

/// How far a synchronisation (or a check) has come.
#[derive(Debug, Clone, Copy, PartialEq, Eq, Structural)]
pub enum SyncStage {
    /// Nothing run yet.
    Start,
    /// The bundle path is configured.
    PathConfigured,
    /// `bundle check` passed.
    Synced,
    /// `bundle check` failed.
    OutOfSync,
    /// The lockfile was refreshed quietly after a passing check.
    QuietLocked,
}

/// Whether only the state is checked, or the bundle is brought in sync.
#[derive(Debug, Clone, Copy, PartialEq, Eq, Structural)]
pub enum SyncMode {
    CheckOnly,
    Synchronize,
}

/// What running a command gave.
#[derive(Debug, Clone, PartialEq, Eq)]
pub enum CommandOutcome {
    /// The program was not found; the system's message.
    NotFound(String),
    /// Starting, running or reading the program failed; the system's message.
    Failed(String),
    /// The program exited, successfully or not, with its exit code when it
    /// has one and what it wrote to its error stream.
    Exited { success: bool, code: Option<i32>, stderr: String },
}

/// Why a synchronisation stopped.
#[derive(Debug, Clone, PartialEq, Eq)]
pub enum SyncFailure {
    /// A program was not found.
    NotFound(String),
    /// Anything else.
    Other(String),
}

/// What comes after a command.
#[derive(Debug, Clone, Copy, PartialEq, Eq, Structural)]
pub enum SyncProgress {
    /// Run the command of this stage next.
    Continue(SyncStage),
    /// A check is complete: whether the bundle is in sync.
    Checked(bool),
    /// The synchronisation is complete.
    Finished(SyncResult),
}

/// The message for a missing `bundle` program.
pub open spec fn bundler_missing_message() -> Seq<char> {
    "Bundler executable not found. Please install bundler with: gem install bundler"@
}

/// The decimal text of a signed number.
pub open spec fn signed_decimal(i: int) -> Seq<char> {
    if i < 0 {
        seq!['-'] + decimal((-i) as nat)
    } else {
        decimal(i as nat)
    }
}

/// An exit code as the messages show it: `-1` when there is none.
pub open spec fn exit_code_text(code: Option<i32>) -> Seq<char> {
    match code {
        Some(c) => signed_decimal(c as int),
        None => "-1"@,
    }
}

/// The message of a failed `bundle install`: the exit code, and what the
/// command wrote to its error stream when that is not blank.
pub open spec fn install_failure_message(code: Option<i32>, stderr: Seq<char>) -> Seq<char> {
    let base = "Bundle install failed (exit code: "@ + exit_code_text(code) + ")"@;
    if trim(stderr).len() > 0 {
        base + ". Error details: "@ + trim(stderr)
    } else {
        base
    }
}

/// The command run at each stage.
pub open spec fn stage_command(stage: SyncStage) -> BundleCommand {
    match stage {
        SyncStage::Start => BundleCommand::ConfigurePath,
        SyncStage::PathConfigured => BundleCommand::Check,
        SyncStage::Synced => BundleCommand::QuietLock,
        SyncStage::QuietLocked => BundleCommand::Lock,
        SyncStage::OutOfSync => BundleCommand::Install,
    }
}

/// The views of a failure: whether the program was missing, and the message.
pub open spec fn failure_view(f: SyncFailure) -> (bool, Seq<char>) {
    match f {
        SyncFailure::NotFound(m) => (true, m@),
        SyncFailure::Other(m) => (false, m@),
    }
}

/// What follows a command's outcome at a stage: the next stage, the end of
/// a check or of a synchronisation, or the failure (as `(missing, message)`).
pub open spec fn advance_spec(mode: SyncMode, stage: SyncStage, outcome: CommandOutcome) -> Result<
    SyncProgress,
    (bool, Seq<char>),
> {
    match outcome {
        CommandOutcome::NotFound(m) => match stage {
            SyncStage::Synced | SyncStage::QuietLocked => Err((true, m@)),
            _ => Err((true, bundler_missing_message())),
        },
        CommandOutcome::Failed(m) => Err((false, m@)),
        CommandOutcome::Exited { success, code, stderr } => match stage {
            SyncStage::Start => if success {
                Ok(SyncProgress::Continue(SyncStage::PathConfigured))
            } else {
                Err(
                    (
                        false,
                        "Failed to configure bundle path (exit code: "@ + exit_code_text(code)
                            + ")"@,
                    ),
                )
            },
            SyncStage::PathConfigured => if success {
                Ok(SyncProgress::Continue(SyncStage::Synced))
            } else if mode == SyncMode::CheckOnly {
                Ok(SyncProgress::Checked(false))
            } else {
                Ok(SyncProgress::Continue(SyncStage::OutOfSync))
            },
            SyncStage::Synced => if mode == SyncMode::CheckOnly {
                Ok(SyncProgress::Checked(true))
            } else {
                Ok(SyncProgress::Continue(SyncStage::QuietLocked))
            },
            SyncStage::QuietLocked => if success {
                Ok(SyncProgress::Finished(SyncResult::AlreadySynced))
            } else {
                Err((false, "Bundle lock failed (exit code: "@ + exit_code_text(code) + ")"@))
            },
            SyncStage::OutOfSync => if success {
                Ok(SyncProgress::Finished(SyncResult::Synchronized))
            } else {
                Err((false, install_failure_message(code, stderr@)))
            },
        },
    }
}

/// The decimal text of a signed number.
pub fn signed_decimal_text(i: i32) -> (r: String)
    ensures
        r@ == signed_decimal(i as int),
{
    if i < 0 {
        let wide: i64 = i as i64;
        let mag: u64 = (0 - wide) as u64;
        let d = decimal_text(mag);
        proof {
            reveal_strlit("-");
        }
        concat("-", d.as_str())
    } else {
        decimal_text(i as u64)
    }
}

/// An exit code as the messages show it.
pub fn exit_code_string(code: Option<i32>) -> (r: String)
    ensures
        r@ == exit_code_text(code),
{
    match code {
        Some(c) => signed_decimal_text(c),
        None => owned("-1"),
    }
}

/// `prefix + code + ")"`.
fn with_exit_code(prefix: &str, code: Option<i32>) -> (r: String)
    ensures
        r@ == prefix@ + exit_code_text(code) + ")"@,
{
    let c = exit_code_string(code);
    let a = concat(prefix, c.as_str());
    concat(a.as_str(), ")")
}

/// The message of a failed `bundle install` (see [`install_failure_message`]).
pub fn install_failure_text(code: Option<i32>, stderr: &str) -> (r: String)
    ensures
        r@ == install_failure_message(code, stderr@),
{
    let base = with_exit_code("Bundle install failed (exit code: ", code);
    let details = trim_str(stderr);
    if details.as_str().is_empty() {
        base
    } else {
        let a = concat(base.as_str(), ". Error details: ");
        concat(a.as_str(), details.as_str())
    }
}

/// The command to run at a stage.
pub fn sync_command(stage: SyncStage) -> (r: BundleCommand)
    ensures
        r == stage_command(stage),
{
    match stage {
        SyncStage::Start => BundleCommand::ConfigurePath,
        SyncStage::PathConfigured => BundleCommand::Check,
        SyncStage::Synced => BundleCommand::QuietLock,
        SyncStage::QuietLocked => BundleCommand::Lock,
        SyncStage::OutOfSync => BundleCommand::Install,
    }
}

/// Decides what follows the outcome of the command of `stage` (see
/// [`advance_spec`]): a missing `bundle` is reported with the installation
/// hint (the lock commands pass the system's message on), a failing check
/// means the bundle is out of sync, and a quiet lock is best-effort.
pub fn sync_advance(mode: SyncMode, stage: SyncStage, outcome: &CommandOutcome) -> (r: Result<
    SyncProgress,
    SyncFailure,
>)
    ensures
        match r {
            Ok(p) => advance_spec(mode, stage, *outcome) == Ok::<SyncProgress, (bool, Seq<char>)>(p),
            Err(f) => advance_spec(mode, stage, *outcome) == Err::<SyncProgress, (bool, Seq<char>)>(
                failure_view(f),
            ),
        },
{
    match outcome {
        CommandOutcome::NotFound(m) => match stage {
            SyncStage::Synced | SyncStage::QuietLocked => Err(SyncFailure::NotFound(m.clone())),
            _ => Err(
                SyncFailure::NotFound(
                    owned("Bundler executable not found. Please install bundler with: gem install bundler"),
                ),
            ),
        },
        CommandOutcome::Failed(m) => Err(SyncFailure::Other(m.clone())),
        CommandOutcome::Exited { success, code, stderr } => match stage {
            SyncStage::Start => if *success {
                Ok(SyncProgress::Continue(SyncStage::PathConfigured))
            } else {
                Err(
                    SyncFailure::Other(
                        with_exit_code("Failed to configure bundle path (exit code: ", *code),
                    ),
                )
            },
            SyncStage::PathConfigured => if *success {
                Ok(SyncProgress::Continue(SyncStage::Synced))
            } else if mode == SyncMode::CheckOnly {
                Ok(SyncProgress::Checked(false))
            } else {
                Ok(SyncProgress::Continue(SyncStage::OutOfSync))
            },
            SyncStage::Synced => if mode == SyncMode::CheckOnly {
                Ok(SyncProgress::Checked(true))
            } else {
                Ok(SyncProgress::Continue(SyncStage::QuietLocked))
            },
            SyncStage::QuietLocked => if *success {
                Ok(SyncProgress::Finished(SyncResult::AlreadySynced))
            } else {
                Err(SyncFailure::Other(with_exit_code("Bundle lock failed (exit code: ", *code)))
            },
            SyncStage::OutOfSync => if *success {
                Ok(SyncProgress::Finished(SyncResult::Synchronized))
            } else {
                Err(SyncFailure::Other(install_failure_text(*code, stderr.as_str())))
            },
        },
    }
}

/// The rank of a stage in the order the commands run.
pub open spec fn stage_rank(s: SyncStage) -> nat {
    match s {
        SyncStage::Start => 0,
        SyncStage::PathConfigured => 1,
        SyncStage::Synced => 2,
        SyncStage::OutOfSync => 2,
        SyncStage::QuietLocked => 3,
    }
}

/// Every step of a synchronisation moves forward, so at most four commands
/// run; the bundle is installed only after `bundle check` failed, and a
/// check never installs anything.
pub proof fn law_sync_moves_forward(mode: SyncMode, stage: SyncStage, outcome: CommandOutcome)
    ensures
        advance_spec(mode, stage, outcome) matches Ok(SyncProgress::Continue(next)) ==> stage_rank(
            next,
        ) > stage_rank(stage),
        advance_spec(mode, stage, outcome) matches Ok(SyncProgress::Continue(next)) ==> (next
            == SyncStage::OutOfSync ==> stage == SyncStage::PathConfigured && mode
            == SyncMode::Synchronize),
        advance_spec(mode, stage, outcome) matches Ok(SyncProgress::Finished(res)) ==> (res
            == SyncResult::Synchronized <==> stage == SyncStage::OutOfSync),
        advance_spec(mode, stage, outcome) matches Ok(SyncProgress::Checked(_)) ==> mode
            == SyncMode::CheckOnly,
        mode == SyncMode::CheckOnly ==> !(advance_spec(mode, stage, outcome) matches Ok(
            SyncProgress::Continue(SyncStage::OutOfSync),
        )),
{
}

/// What kind of trouble a failed synchronisation's message points to.
#[derive(Debug, Clone, Copy, PartialEq, Eq, Structural)]
pub enum SyncFailureKind {
    /// Native extensions failed to compile.
    NativeExtension,
    /// The `bundle` program is missing.
    BundlerMissing,
    /// A permission was denied.
    PermissionDenied,
    /// Anything else.
    Other,
}

/// The kind of a failure message, by the words it contains, checked in
/// this order: compilation, a missing Bundler, permissions.
pub open spec fn failure_kind_spec(m: Seq<char>) -> SyncFailureKind {
    if contains_text(m, "extconf.rb failed"@) || contains_text(m, "native extension"@)
        || contains_text(m, "development tools"@) || contains_text(m, "compiler failed"@)
        || contains_text(m, "Makefile"@) {
        SyncFailureKind::NativeExtension
    } else if contains_text(m, "not found"@) && contains_text(m, "bundler"@) {
        SyncFailureKind::BundlerMissing
    } else if contains_text(m, "permission"@) || contains_text(m, "Permission"@) {
        SyncFailureKind::PermissionDenied
    } else {
        SyncFailureKind::Other
    }
}

/// The kind of a failure message (see [`failure_kind_spec`]).
pub fn classify_sync_failure(message: &str) -> (r: SyncFailureKind)
    ensures
        r == failure_kind_spec(message@),
{
    if str_contains(message, "extconf.rb failed") || str_contains(message, "native extension")
        || str_contains(message, "development tools") || str_contains(message, "compiler failed")
        || str_contains(message, "Makefile") {
        SyncFailureKind::NativeExtension
    } else if str_contains(message, "not found") && str_contains(message, "bundler") {
        SyncFailureKind::BundlerMissing
    } else if str_contains(message, "permission") || str_contains(message, "Permission") {
        SyncFailureKind::PermissionDenied
    } else {
        SyncFailureKind::Other
    }
}

/// Finds the Bundler project around a directory.
pub struct BundlerRuntimeDetector;

impl BundlerRuntimeDetector {
    /// The nearest directory, from `start_dir` upwards, that holds a file
    /// named `Gemfile` (as `is_file` reports of `<dir>/Gemfile`).
    pub fn discover<F: Fn(&str) -> bool>(start_dir: &str, is_file: F) -> (r: Option<String>)
        requires
            forall|s: &str| #[trigger] is_file.requires((s,)),
        ensures
            r matches Some(d) ==> exists|n: nat|
                {
                    &&& #[trigger] nth_ancestor(start_dir@, n) == Some(d@)
                    &&& exists|s: &str|
                        s@ == path_join(d@, "Gemfile"@) && is_file.ensures((s,), true)
                    &&& forall|m: nat|
                        m < n ==> (#[trigger] nth_ancestor(start_dir@, m) matches Some(a)
                            && exists|s: &str|
                            s@ == path_join(a, "Gemfile"@) && is_file.ensures((s,), false))
                },
            r is None ==> forall|m: nat|
                (#[trigger] nth_ancestor(start_dir@, m) matches Some(a) ==> exists|s: &str|
                    s@ == path_join(a, "Gemfile"@) && is_file.ensures((s,), false)),
    {
        proof {
            reveal_strlit("Gemfile");
        }
        find_upwards(start_dir, "Gemfile", is_file)
    }
}

} // verus!
