# Ruby Butler

`rb` manages Ruby environments: it finds the Ruby installations in a rubies
directory, selects one (a requested version, the version a Bundler project
asks for, or the latest), composes the gem paths and environment variables
for it, isolates Bundler projects, runs programs and project scripts in that
environment, and completes its own command line in Bash.

## Layout

- `src/` is the library, verified with Verus. Each module states its
  behaviour in `requires`/`ensures` contracts over plain mathematical values:
  - `version`, `discovery`, `ruby`, `gems`: versions, the installations of a
    rubies directory (latest first), gem homes;
  - `version_detector`, `gem_paths`, `bundler`, `butler`, `provider`: the
    version a project asks for, gem path detection, Bundler projects and the
    steps of bringing a bundle in sync, and the composed runtime with its
    `PATH`, `GEM_HOME` and `GEM_PATH`;
  - `project`, `kdl_doc`, `search`: project files (`rbproject.toml`, KDL)
    and finding files upwards from a directory;
  - `config`: settings with the source each came from, and where the
    configuration file is looked for;
  - `command`: what runs, with which arguments and variables;
  - `cli`: the decisions of the command line (dispatch, completion, reports,
    messages and exit codes).
- `app/` is the `rb` program: argument parsing, reading files and the
  environment, starting processes, and printing.
- `tests/` exercises the library on concrete values.

Laws that relate several functions stand in `src/` as public proof functions
named `law_*`.
