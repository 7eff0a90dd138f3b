//! Commands run inside a Butler environment.
//!
//! A command is run with the environment's variables; inside a Bundler
//! project every program but `bundle` itself runs through `bundle exec`.
//! This module decides the program, arguments, variables and directory; the
//! program starts the process.
use vstd::prelude::*;
use crate::butler::{env_spec, opt_str, pairs_view, ButlerError, ButlerRuntime, ButlerView, ErrorView};
use crate::text::{concat, owned, str_eq, views_of};

verus! {

/// Calls `which::which_in` with the given search path and working
/// directory, and gives the path found as text.
///
/// Nothing is claimed of the result: it depends on what is on disk.
#[verifier::external_body]
fn which_in(program: &str, search_path: &str, cwd: &str) -> (r: Option<String>) {
    match which::which_in(program, Some(search_path), cwd) {
        Ok(p) => Some(p.to_string_lossy().into_owned()),
        Err(_) => None,
    }
}

/// A command to run in a Butler environment: the program, its arguments,
/// its working directory when one is set, and extra variables.
#[derive(Debug, Clone)]
pub struct Command {
    pub program: String,
    pub args: Vec<String>,
    pub current_dir: Option<String>,
    pub env_vars: Vec<(String, String)>,
}

/// Is `p` the `bundle` (or `bundler`) program itself?
pub open spec fn is_bundle_program(p: Seq<char>) -> bool {
    p == "bundle"@ || p == "bundler"@
}

/// A process to start: program, arguments, variables (later ones override
/// earlier ones) and working directory.
#[derive(Debug, Clone)]
pub struct Invocation {
    pub program: String,
    pub args: Vec<String>,
    pub env: Vec<(String, String)>,
    pub current_dir: Option<String>,
}

/// The message of a command that could not be started.
pub open spec fn execution_failure_message(program: Seq<char>, detail: Seq<char>) -> Seq<char> {
    "Failed to execute command '"@ + program + "': "@ + detail
}

impl Command {
    /// A command of the given program, with no arguments.
    pub fn new(program: &str) -> (r: Command)
        ensures
            r.program@ == program@,
            r.args@.len() == 0,
            r.current_dir is None,
            r.env_vars@.len() == 0,
    {
        Command { program: owned(program), args: Vec::new(), current_dir: None, env_vars: Vec::new() }
    }

    /// Appends an argument.
    pub fn arg(&mut self, arg: &str)
        ensures
            final(self).program == old(self).program,
            views_of(final(self).args@) == views_of(old(self).args@).push(arg@),
            final(self).current_dir == old(self).current_dir,
            final(self).env_vars == old(self).env_vars,
    {
        self.args.push(owned(arg));
        proof {
            assert(views_of(self.args@) =~= views_of(old(self).args@).push(arg@));
        }
    }

    /// Appends arguments, in order.
    pub fn args(&mut self, args: &[&str])
        ensures
            final(self).program == old(self).program,
            views_of(final(self).args@) == views_of(old(self).args@) + args@.map_values(
                |s: &str| s@,
            ),
            final(self).current_dir == old(self).current_dir,
            final(self).env_vars == old(self).env_vars,
    {
        let ghost start = views_of(self.args@);
        let mut i: usize = 0;
        while i < args.len()
            invariant
                i <= args@.len(),
                self.program == old(self).program,
                self.current_dir == old(self).current_dir,
                self.env_vars == old(self).env_vars,
                views_of(self.args@) == start + args@.subrange(0, i as int).map_values(|s: &str| s@),
            decreases args.len() - i,
        {
            self.arg(args[i]);
            proof {
                assert(args@.subrange(0, i + 1).map_values(|s: &str| s@) =~= args@.subrange(
                    0,
                    i as int,
                ).map_values(|s: &str| s@).push(args@[i as int]@));
            }
            i = i + 1;
        }
        proof {
            assert(args@.subrange(0, args@.len() as int) =~= args@);
        }
    }

    /// Sets the working directory.
    pub fn current_dir(&mut self, dir: &str)
        ensures
            final(self).program == old(self).program,
            final(self).args == old(self).args,
            opt_str(final(self).current_dir) == Some(dir@),
            final(self).env_vars == old(self).env_vars,
    {
        self.current_dir = Some(owned(dir));
    }

    /// Sets a variable, replacing an earlier value of the same name.
    pub fn env(&mut self, key: &str, val: &str)
        ensures
            final(self).program == old(self).program,
            final(self).args == old(self).args,
            final(self).current_dir == old(self).current_dir,
            pairs_view(final(self).env_vars@) == set_var(pairs_view(old(self).env_vars@), key@, val@),
    {
        let mut i: usize = 0;
        while i < self.env_vars.len()
            invariant
                i <= self.env_vars@.len(),
                self.env_vars == old(self).env_vars,
                self.program == old(self).program,
                self.args == old(self).args,
                self.current_dir == old(self).current_dir,
                forall|j: int| 0 <= j < i ==> self.env_vars@[j].0@ != key@,
            decreases self.env_vars.len() - i,
        {
            if str_eq(self.env_vars[i].0.as_str(), key) {
                let ghost before = pairs_view(self.env_vars@);
                self.env_vars.set(i, (owned(key), owned(val)));
                proof {
                    lemma_set_var_at(before, i as int, key@, val@);
                    assert(pairs_view(self.env_vars@) =~= before.update(i as int, (key@, val@)));
                }
                return;
            }
            i = i + 1;
        }
        let ghost before = pairs_view(self.env_vars@);
        self.env_vars.push((owned(key), owned(val)));
        proof {
            lemma_set_var_absent(before, key@, val@);
            assert(pairs_view(self.env_vars@) =~= before.push((key@, val@)));
        }
    }

    /// Is this the `bundle` (or `bundler`) program itself?
    pub fn is_bundle_command(&self) -> (r: bool)
        ensures
            r == is_bundle_program(self.program@),
    {
        str_eq(self.program.as_str(), "bundle") || str_eq(self.program.as_str(), "bundler")
    }

    /// Does the command run through `bundle exec`: inside a Bundler project,
    /// for any program but `bundle` itself?
    pub fn should_use_bundle_exec(&self, runtime: &ButlerRuntime) -> (r: bool)
        ensures
            r == (runtime.bundler_runtime is Some && !is_bundle_program(self.program@)),
    {
        match runtime.bundler_runtime() {
            Some(_) => !self.is_bundle_command(),
            None => false,
        }
    }

    /// The program found for `program` along the environment's `PATH` (see
    /// [`ButlerRuntime::build_path`]), or `program` itself when none is found
    /// (see [`Command::resolved_or_program`]). What the search finds depends
    /// on the files on disk, so the contract claims nothing of the result.
    pub fn resolve_executable_path(
        program: &str,
        runtime: &ButlerRuntime,
        existing_path: Option<String>,
        cwd: &str,
        bundler_configured: bool,
    ) -> String {
        let path = runtime.build_path(existing_path, bundler_configured);
        let found = which_in(program, path.as_str(), cwd);
        Self::resolved_or_program(program, found)
    }

    /// The path that the search found, or the program's own name when the
    /// search found none.
    pub fn resolved_or_program(program: &str, found: Option<String>) -> (r: String)
        ensures
            match found {
                Some(p) => r@ == p@,
                None => r@ == program@,
            },
    {
        match found {
            Some(p) => p,
            None => owned(program),
        }
    }

    /// The program whose presence decides whether the command can run:
    /// `bundle` for a command run through `bundle exec`, the program itself
    /// otherwise.
    pub fn existence_target(&self, runtime: &ButlerRuntime) -> (r: &str)
        ensures
            r@ == (if runtime.bundler_runtime is Some && !is_bundle_program(self.program@) {
                "bundle"@
            } else {
                self.program@
            }),
    {
        if self.should_use_bundle_exec(runtime) {
            "bundle"
        } else {
            self.program.as_str()
        }
    }

    /// Is the program that the command needs (see
    /// [`Command::existence_target`]) found along the environment's `PATH`
    /// (see [`ButlerRuntime::build_path`])? The answer depends on the files
    /// on disk, so the contract claims nothing of it.
    pub fn command_exists(
        &self,
        runtime: &ButlerRuntime,
        existing_path: Option<String>,
        cwd: &str,
        bundler_configured: bool,
    ) -> (r: bool) {
        let path = runtime.build_path(existing_path, bundler_configured);
        which_in(self.existence_target(runtime), path.as_str(), cwd).is_some()
    }

    /// The process to start, for the program path that was resolved (see
    /// [`Command::resolve_executable_path`]; for `bundle exec`, the path of
    /// `bundle`): through `bundle exec <program> <args>` inside a Bundler
    /// project, directly otherwise; with the environment's variables, then
    /// the command's own; in the command's working directory.
    pub fn invocation(
        &self,
        runtime: &ButlerRuntime,
        resolved_program: &str,
        existing_path: Option<String>,
        bundler_configured: bool,
    ) -> (r: Invocation)
        ensures
            r.program@ == resolved_program@,
            views_of(r.args@) == (if runtime.bundler_runtime is Some && !is_bundle_program(
                self.program@,
            ) {
                seq!["exec"@, self.program@] + views_of(self.args@)
            } else {
                views_of(self.args@)
            }),
            pairs_view(r.env@) == env_spec(runtime@, opt_str(existing_path), bundler_configured)
                + pairs_view(self.env_vars@),
            opt_str(r.current_dir) == opt_str(self.current_dir),
    {
        let mut args: Vec<String> = Vec::new();
        if self.should_use_bundle_exec(runtime) {
            args.push(owned("exec"));
            args.push(self.program.clone());
        }
        let ghost prefix = views_of(args@);
        let mut i: usize = 0;
        while i < self.args.len()
            invariant
                i <= self.args@.len(),
                views_of(args@) == prefix + views_of(self.args@.subrange(0, i as int)),
            decreases self.args.len() - i,
        {
            let ghost before = args@;
            let a = self.args[i].clone();
            args.push(a);
            proof {
                assert(views_of(self.args@.subrange(0, i + 1)) =~= views_of(self.args@.subrange(0, i as int)).push(
                    self.args@[i as int]@,
                ));
                assert(views_of(args@) =~= views_of(before).push(self.args@[i as int]@));
            }
            i = i + 1;
        }
        let mut env = runtime.env_vars(existing_path, bundler_configured);
        let ghost base = pairs_view(env@);
        let mut j: usize = 0;
        while j < self.env_vars.len()
            invariant
                j <= self.env_vars@.len(),
                pairs_view(env@) == base + pairs_view(self.env_vars@.subrange(0, j as int)),
            decreases self.env_vars.len() - j,
        {
            let ghost before = env@;
            let k = self.env_vars[j].0.clone();
            let v = self.env_vars[j].1.clone();
            env.push((k, v));
            proof {
                assert(pairs_view(self.env_vars@.subrange(0, j + 1)) =~= pairs_view(
                    self.env_vars@.subrange(0, j as int),
                ).push((self.env_vars@[j as int].0@, self.env_vars@[j as int].1@)));
                assert(pairs_view(env@) =~= pairs_view(before).push(
                    (self.env_vars@[j as int].0@, self.env_vars@[j as int].1@),
                ));
            }
            j = j + 1;
        }
        proof {
            assert(self.args@.subrange(0, self.args@.len() as int) =~= self.args@);
            assert(self.env_vars@.subrange(0, self.env_vars@.len() as int) =~= self.env_vars@);
            if runtime.bundler_runtime is Some && !is_bundle_program(self.program@) {
                assert(prefix =~= seq!["exec"@, self.program@]);
            } else {
                assert(prefix =~= Seq::<Seq<char>>::empty());
            }
        }
        Invocation {
            program: owned(resolved_program),
            args,
            env,
            current_dir: match &self.current_dir {
                Some(d) => Some(d.clone()),
                None => None,
            },
        }
    }

    /// The process to start (see [`Command::invocation`]), its program
    /// resolved along the environment's `PATH`: `bundle` for `bundle exec`,
    /// the command's program otherwise.
    pub fn build_invocation(
        &self,
        runtime: &ButlerRuntime,
        existing_path: Option<String>,
        cwd: &str,
        bundler_configured: bool,
    ) -> (r: Invocation)
        ensures
            views_of(r.args@) == (if runtime.bundler_runtime is Some && !is_bundle_program(
                self.program@,
            ) {
                seq!["exec"@, self.program@] + views_of(self.args@)
            } else {
                views_of(self.args@)
            }),
            pairs_view(r.env@) == env_spec(runtime@, opt_str(existing_path), bundler_configured)
                + pairs_view(self.env_vars@),
            opt_str(r.current_dir) == opt_str(self.current_dir),
    {
        let path_copy: Option<String> = match &existing_path {
            Some(p) => Some(p.clone()),
            None => None,
        };
        let resolved = if self.should_use_bundle_exec(runtime) {
            Self::resolve_executable_path("bundle", runtime, path_copy, cwd, bundler_configured)
        } else {
            Self::resolve_executable_path(
                self.program.as_str(),
                runtime,
                path_copy,
                cwd,
                bundler_configured,
            )
        };
        self.invocation(runtime, resolved.as_str(), existing_path, bundler_configured)
    }

    /// Whether the command may run: `CommandNotFound` with the program's name
    /// when it was not found.
    pub fn validate(&self, exists: bool) -> (r: Result<(), ButlerError>)
        ensures
            exists ==> r is Ok,
            !exists ==> (r matches Err(e) && e@ == ErrorView::CommandNotFound(self.program@)),
    {
        if exists {
            Ok(())
        } else {
            Err(ButlerError::CommandNotFound(self.program.clone()))
        }
    }

    /// The error of a command that could not be started.
    pub fn execution_failure(&self, detail: &str) -> (r: ButlerError)
        ensures
            r@ == ErrorView::General(execution_failure_message(self.program@, detail@)),
    {
        let a = concat("Failed to execute command '", self.program.as_str());
        let b = concat(a.as_str(), "': ");
        proof {
            reveal_strlit("Failed to execute command '");
            reveal_strlit("': ");
        }
        ButlerError::General(concat(b.as_str(), detail))
    }
}

/// `vars` with `key` set to `val`: replaced where it is, else appended.
pub open spec fn set_var(vars: Seq<(Seq<char>, Seq<char>)>, key: Seq<char>, val: Seq<char>) -> Seq<
    (Seq<char>, Seq<char>),
>
    decreases vars.len(),
{
    if vars.len() == 0 {
        seq![(key, val)]
    } else if vars[0].0 == key {
        vars.update(0, (key, val))
    } else {
        seq![vars[0]] + set_var(vars.drop_first(), key, val)
    }
}

/// Setting a variable twice leaves only the second value, where the first
/// one stood: a command's variables hold the last value set for each name.
pub proof fn law_env_last_write_wins(
    vars: Seq<(Seq<char>, Seq<char>)>,
    key: Seq<char>,
    first: Seq<char>,
    second: Seq<char>,
)
    ensures
        set_var(set_var(vars, key, first), key, second) == set_var(vars, key, second),
    decreases vars.len(),
{
    if vars.len() == 0 {
        assert(seq![(key, first)].update(0, (key, second)) =~= seq![(key, second)]);
    } else if vars[0].0 == key {
        assert(vars.update(0, (key, first)).update(0, (key, second)) =~= vars.update(0, (key, second)));
    } else {
        law_env_last_write_wins(vars.drop_first(), key, first, second);
        let once = set_var(vars, key, first);
        assert(once == seq![vars[0]] + set_var(vars.drop_first(), key, first));
        assert(once.drop_first() =~= set_var(vars.drop_first(), key, first));
        assert(once[0] == vars[0]);
    }
}

proof fn lemma_set_var_at(vars: Seq<(Seq<char>, Seq<char>)>, i: int, key: Seq<char>, val: Seq<char>)
    requires
        0 <= i < vars.len(),
        vars[i].0 == key,
        forall|j: int| 0 <= j < i ==> vars[j].0 != key,
    ensures
        set_var(vars, key, val) == vars.update(i, (key, val)),
    decreases i,
{
    if i > 0 {
        lemma_set_var_at(vars.drop_first(), i - 1, key, val);
        assert(seq![vars[0]] + vars.drop_first().update(i - 1, (key, val)) =~= vars.update(
            i,
            (key, val),
        ));
    }
}

proof fn lemma_set_var_absent(vars: Seq<(Seq<char>, Seq<char>)>, key: Seq<char>, val: Seq<char>)
    requires
        forall|j: int| 0 <= j < vars.len() ==> vars[j].0 != key,
    ensures
        set_var(vars, key, val) == vars.push((key, val)),
    decreases vars.len(),
{
    if vars.len() > 0 {
        lemma_set_var_absent(vars.drop_first(), key, val);
        assert(seq![vars[0]] + vars.drop_first().push((key, val)) =~= vars.push((key, val)));
    }
}

} // verus!
