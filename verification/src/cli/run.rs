//! `rb run` and `rb exec`: project scripts and the programs they run.
use vstd::prelude::*;
use crate::butler::{ButlerError, ErrorView};
use crate::project::{scripts_map, unique_names, ProjectRuntime};
use crate::text::{chars_of, concat, owned, string_of, views_of};

verus! {

/// The state of reading a command line: the words so far, the word being
/// read, and whether a double or a single quote is open.
pub open spec fn tokenize(s: Seq<char>) -> (Seq<Seq<char>>, Seq<char>, bool, bool)
    decreases s.len(),
{
    if s.len() == 0 {
        (Seq::empty(), Seq::empty(), false, false)
    } else {
        let t = tokenize(s.drop_last());
        let c = s.last();
        if c == '"' && !t.3 {
            (t.0, t.1, !t.2, t.3)
        } else if c == '\'' && !t.2 {
            (t.0, t.1, t.2, !t.3)
        } else if c == ' ' && !t.2 && !t.3 {
            if t.1.len() > 0 {
                (t.0.push(t.1), Seq::empty(), t.2, t.3)
            } else {
                t
            }
        } else {
            (t.0, t.1.push(c), t.2, t.3)
        }
    }
}

/// The words of a script's command: split at spaces outside quotes, the
/// quotes themselves dropped (a quote of one kind inside the other is kept),
/// empty words left out.
pub open spec fn command_words(s: Seq<char>) -> Seq<Seq<char>> {
    let t = tokenize(s);
    if t.1.len() > 0 {
        t.0.push(t.1)
    } else {
        t.0
    }
}

/// Splits a script's command into words (see [`command_words`]).
pub fn parse_command(command: &str) -> (r: Vec<String>)
    ensures
        views_of(r@) == command_words(command@),
{
    let v = chars_of(command);
    let mut parts: Vec<String> = Vec::new();
    let mut current: Vec<char> = Vec::new();
    let mut in_double = false;
    let mut in_single = false;
    let mut i: usize = 0;
    proof {
        assert(v@.subrange(0, 0) =~= Seq::<char>::empty());
        assert(views_of(parts@) =~= Seq::<Seq<char>>::empty());
    }
    while i < v.len()
        invariant
            i <= v@.len(),
            v@ == command@,
            tokenize(v@.subrange(0, i as int)) == (views_of(parts@), current@, in_double, in_single),
        decreases v.len() - i,
    {
        let c = v[i];
        proof {
            assert(v@.subrange(0, i + 1).drop_last() =~= v@.subrange(0, i as int));
            assert(v@.subrange(0, i + 1).last() == c);
        }
        if c == '"' && !in_single {
            in_double = !in_double;
        } else if c == '\'' && !in_double {
            in_single = !in_single;
        } else if c == ' ' && !in_double && !in_single {
            if current.len() > 0 {
                let w = string_of(current.as_slice());
                let ghost before = parts@;
                parts.push(w);
                current = Vec::new();
                proof {
                    assert(views_of(parts@) =~= views_of(before).push(w@));
                    assert(current@ =~= Seq::<char>::empty());
                }
            }
        } else {
            current.push(c);
        }
        i = i + 1;
    }
    proof {
        assert(v@.subrange(0, v@.len() as int) =~= v@);
    }
    if current.len() > 0 {
        let w = string_of(current.as_slice());
        let ghost before = parts@;
        parts.push(w);
        proof {
            assert(views_of(parts@) =~= views_of(before).push(w@));
        }
    }
    parts
}

/// The arguments `rb run <script> <args>` executes: the script's command
/// words, then the extra arguments. An unknown script, or one whose command
/// has no words, is an error.
pub fn script_invocation(project: &ProjectRuntime, script_name: &str, args: Vec<String>) -> (r: Result<
    Vec<String>,
    ButlerError,
>)
    requires
        unique_names(project.scripts@),
    ensures
        !scripts_map(project.scripts@).contains_key(script_name@) ==> (r matches Err(e) && e@
            == ErrorView::General(
            "The script '"@ + script_name@ + "' is not defined in your project configuration"@,
        )),
        scripts_map(project.scripts@).contains_key(script_name@) ==> {
            let words = command_words(scripts_map(project.scripts@)[script_name@].0);
            if words.len() == 0 {
                r matches Err(e) && e@ == ErrorView::General(
                    "The script '"@ + script_name@ + "' has an empty command"@,
                )
            } else {
                r matches Ok(v) && views_of(v@) == words + views_of(args@)
            }
        },
{
    let command = match project.get_script_command(script_name) {
        Some(c) => c,
        None => {
            let a = concat("The script '", script_name);
            return Err(
                ButlerError::General(
                    concat(a.as_str(), "' is not defined in your project configuration"),
                ),
            );
        },
    };
    let mut words = parse_command(command);
    if words.len() == 0 {
        let a = concat("The script '", script_name);
        return Err(ButlerError::General(concat(a.as_str(), "' has an empty command")));
    }
    let ghost w0 = views_of(words@);
    let mut i: usize = 0;
    while i < args.len()
        invariant
            i <= args@.len(),
            views_of(words@) == w0 + views_of(args@.subrange(0, i as int)),
        decreases args.len() - i,
    {
        let ghost before = words@;
        words.push(args[i].clone());
        proof {
            assert(views_of(args@.subrange(0, i + 1)) =~= views_of(args@.subrange(0, i as int)).push(
                args@[i as int]@,
            ));
            assert(views_of(words@) =~= views_of(before).push(args@[i as int]@));
        }
        i = i + 1;
    }
    proof {
        assert(args@.subrange(0, args@.len() as int) =~= args@);
    }
    Ok(words)
}

/// The error of `rb run <script>` where no project configuration is found.
pub fn no_project_for_script(script_name: &str) -> (r: ButlerError)
    ensures
        r@ == ErrorView::General(
            "No project configuration detected in the current directory hierarchy.\n\nTo use project scripts, create one of these files: rbproject.toml, rb.toml, rb.kdl, gem.toml, gem.kdl\n\nOr specify a custom location with: rb -P path/to/rb.toml run "@
                + script_name@,
        ),
{
    ButlerError::General(
        concat(
            "No project configuration detected in the current directory hierarchy.\n\nTo use project scripts, create one of these files: rbproject.toml, rb.toml, rb.kdl, gem.toml, gem.kdl\n\nOr specify a custom location with: rb -P path/to/rb.toml run ",
            script_name,
        ),
    )
}

/// The error of `rb run` (listing scripts) where no project configuration
/// is found.
pub fn no_project_for_listing() -> (r: ButlerError)
    ensures
        r@ == ErrorView::General(
            "No project configuration detected in the current directory hierarchy.\n\nTo define project scripts, create one of these files (in priority order):\n  gem.kdl, gem.toml, rbproject.kdl, rbproject.toml\n\nOr specify a custom location: rb -P path/to/gem.kdl run"@,
        ),
{
    ButlerError::General(
        owned(
            "No project configuration detected in the current directory hierarchy.\n\nTo define project scripts, create one of these files (in priority order):\n  gem.kdl, gem.toml, rbproject.kdl, rbproject.toml\n\nOr specify a custom location: rb -P path/to/gem.kdl run",
        ),
    )
}

/// The error of a project file given with `-P` that could not be loaded.
pub fn project_load_failure(path: &str, detail: &str) -> (r: ButlerError)
    ensures
        r@ == ErrorView::General(
            "The specified project configuration could not be loaded from "@ + path@ + ":\n"@
                + detail@,
        ),
{
    let a = concat("The specified project configuration could not be loaded from ", path);
    let b = concat(a.as_str(), ":\n");
    proof {
        reveal_strlit(":\n");
    }
    ButlerError::General(concat(b.as_str(), detail))
}

/// The project `rb run` works on, from the outcome of finding and loading
/// it (`Err` carries the path given with `-P` and the load error's text): the
/// project found; where none was found, the error for listing scripts when
/// no script is named, else the error for that script; where the named file
/// did not load, [`project_load_failure`].
pub fn project_for_run(found: Result<Option<ProjectRuntime>, (String, String)>, script_name: Option<&str>) -> (r:
    Result<ProjectRuntime, ButlerError>)
    ensures
        match found {
            Ok(Some(p)) => r == Ok::<ProjectRuntime, ButlerError>(p),
            Ok(None) => r matches Err(e) && e@ == match script_name {
                Some(n) => ErrorView::General(
                    "No project configuration detected in the current directory hierarchy.\n\nTo use project scripts, create one of these files: rbproject.toml, rb.toml, rb.kdl, gem.toml, gem.kdl\n\nOr specify a custom location with: rb -P path/to/rb.toml run "@
                        + n@,
                ),
                None => ErrorView::General(
                    "No project configuration detected in the current directory hierarchy.\n\nTo define project scripts, create one of these files (in priority order):\n  gem.kdl, gem.toml, rbproject.kdl, rbproject.toml\n\nOr specify a custom location: rb -P path/to/gem.kdl run"@,
                ),
            },
            Err((path, detail)) => r matches Err(e) && e@ == ErrorView::General(
                "The specified project configuration could not be loaded from "@ + path@ + ":\n"@
                    + detail@,
            ),
        },
{
    match found {
        Ok(Some(p)) => Ok(p),
        Ok(None) => match script_name {
            Some(n) => Err(no_project_for_script(n)),
            None => Err(no_project_for_listing()),
        },
        Err((path, detail)) => Err(project_load_failure(path.as_str(), detail.as_str())),
    }
}

/// The program of `rb exec <program> <args>` and its arguments; `None` when
/// no program was given.
pub fn split_program(args: &Vec<String>) -> (r: Option<(String, Vec<String>)>)
    ensures
        args@.len() == 0 ==> r is None,
        args@.len() > 0 ==> (r matches Some(p) && p.0@ == args@[0]@ && views_of(p.1@) == views_of(
            args@.drop_first(),
        )),
{
    if args.len() == 0 {
        return None;
    }
    let mut rest: Vec<String> = Vec::new();
    let mut i: usize = 1;
    proof {
        assert(views_of(rest@) =~= views_of(args@.subrange(1, 1)));
    }
    while i < args.len()
        invariant
            1 <= i <= args@.len(),
            views_of(rest@) == views_of(args@.subrange(1, i as int)),
        decreases args.len() - i,
    {
        let ghost before = rest@;
        rest.push(args[i].clone());
        proof {
            assert(views_of(args@.subrange(1, i + 1)) =~= views_of(args@.subrange(1, i as int)).push(
                args@[i as int]@,
            ));
            assert(views_of(rest@) =~= views_of(before).push(args@[i as int]@));
        }
        i = i + 1;
    }
    proof {
        assert(args@.subrange(1, args@.len() as int) =~= args@.drop_first());
    }
    Some((args[0].clone(), rest))
}

/// How running the program of `rb exec` ended.
#[derive(Debug, Clone, Copy, PartialEq, Eq, Structural)]
pub enum ExecOutcome {
    /// It exited, with its exit code when it has one.
    Exited(Option<i32>),
    /// It was not found in the environment.
    NotFound,
    /// It could not be run.
    Failed,
}

/// The exit code `rb exec` ends with: the program's own, else 1; 127 for a
/// program not found.
pub fn exec_exit_code(outcome: ExecOutcome) -> (r: i32)
    ensures
        r == match outcome {
            ExecOutcome::Exited(Some(c)) => c,
            ExecOutcome::Exited(None) => 1i32,
            ExecOutcome::NotFound => 127i32,
            ExecOutcome::Failed => 1i32,
        },
{
    match outcome {
        ExecOutcome::Exited(Some(c)) => c,
        ExecOutcome::Exited(None) => 1,
        ExecOutcome::NotFound => 127,
        ExecOutcome::Failed => 1,
    }
}

} // verus!
