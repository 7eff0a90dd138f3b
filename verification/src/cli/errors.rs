//! The messages shown for errors, and the exit codes they lead to.
use vstd::prelude::*;
use crate::butler::{ButlerError, ErrorView};
use crate::cli::paint::{bright_yellow, cyan, has_escape, painted};
use crate::config::settings::TrackedConfig;
use crate::config::value::source_label;
use crate::text::{concat, owned};

verus! {

/// The message of a rubies directory that holds no Ruby.
pub open spec fn no_suitable_ruby_message(
    rubies_dir: Seq<char>,
    source: Seq<char>,
    requested: Option<(Seq<char>, Seq<char>)>,
) -> Seq<char> {
    let head = "The designated Ruby estate directory appears to be absent from your system.\n\nSearched in:\n  • "@
        + rubies_dir + " (from "@ + source + ")\n"@;
    let with_version = match requested {
        Some(v) => head + "\nRequested version: "@ + v.0 + " (from "@ + v.1 + ")\n"@,
        None => head,
    };
    with_version
        + "\nMay I suggest installing Ruby using ruby-install or a similar distinguished tool?"@
}

/// The message shown when no Ruby is found: where it was looked for (and
/// where that setting came from), and the requested version with its source.
pub fn format_no_suitable_ruby(rubies_dir: &str, source: String, requested_version: Option<(String, String)>) -> (r:
    String)
    ensures
        r@ == no_suitable_ruby_message(
            rubies_dir@,
            source@,
            match requested_version {
                Some(v) => Some((v.0@, v.1@)),
                None => None,
            },
        ),
{
    let mut msg = concat(
        "The designated Ruby estate directory appears to be absent from your system.\n\nSearched in:\n  • ",
        rubies_dir,
    );
    msg.append(" (from ");
    msg.append(source.as_str());
    msg.append(")\n");
    match &requested_version {
        Some(v) => {
            msg.append("\nRequested version: ");
            msg.append(v.0.as_str());
            msg.append(" (from ");
            msg.append(v.1.as_str());
            msg.append(")\n");
        },
        None => {},
    }
    msg.append("\nMay I suggest installing Ruby using ruby-install or a similar distinguished tool?");
    proof {
        reveal_strlit(" (from ");
        reveal_strlit(")\n");
        reveal_strlit("\nRequested version: ");
    }
    msg
}

/// The message of a command that is not in the environment, around the
/// command's name as it is painted (see [`painted`]) and the painted
/// suggestions `gem install <command>` and `bundle install`.
pub open spec fn command_not_found_message(
    name: Seq<char>,
    gem_install: Seq<char>,
    bundle_install: Seq<char>,
) -> Seq<char> {
    "🎩 My sincerest apologies, but the command '"@ + name
        + "' appears to be\n   entirely absent from your distinguished Ruby environment.\n\nThis humble Butler has meticulously searched through all\navailable paths and gem installations, yet the requested\ncommand remains elusive.\n\nMight I suggest:\n  • Verifying the command name is spelled correctly\n  • Installing the appropriate gem: "@
        + gem_install + "\n  • Checking if bundler management is required: "@ + bundle_install
}

/// The message shown for a command that is not in the environment.
pub fn format_command_not_found(command: &str) -> (r: String)
    ensures
        exists|name: Seq<char>, gem: Seq<char>, bundle: Seq<char>|
            {
                &&& r@ == #[trigger] command_not_found_message(name, gem, bundle)
                &&& !has_escape(command@) ==> painted(command@, "93"@, name)
                &&& !has_escape(command@) ==> painted("gem install "@ + command@, "36"@, gem)
                &&& painted("bundle install"@, "36"@, bundle)
            },
{
    let name = bright_yellow(command);
    let gem_text = concat("gem install ", command);
    proof {
        reveal_strlit("gem install ");
        reveal_strlit("bundle install");
        if has_escape(gem_text@) && !has_escape(command@) {
            let i = choose|i: int| 0 <= i < gem_text@.len() && gem_text@[i] == '\u{1b}';
            assert(i >= 12);
            assert(command@[i - 12] == '\u{1b}');
        }
        assert(!has_escape("bundle install"@)) by {
            if has_escape("bundle install"@) {
                let i = choose|i: int| 0 <= i < "bundle install"@.len() && "bundle install"@[i] == '\u{1b}';
            }
        }
    }
    let gem = cyan(gem_text.as_str());
    let bundle = cyan("bundle install");
    let mut msg = concat("🎩 My sincerest apologies, but the command '", name.as_str());
    msg.append(
        "' appears to be\n   entirely absent from your distinguished Ruby environment.\n\nThis humble Butler has meticulously searched through all\navailable paths and gem installations, yet the requested\ncommand remains elusive.\n\nMight I suggest:\n  • Verifying the command name is spelled correctly\n  • Installing the appropriate gem: ",
    );
    msg.append(gem.as_str());
    msg.append("\n  • Checking if bundler management is required: ");
    msg.append(bundle.as_str());
    proof {
        assert(msg@ =~= command_not_found_message(name@, gem@, bundle@));
    }
    msg
}

/// The message of a rubies directory that does not exist.
pub open spec fn rubies_dir_not_found_message(path: Seq<char>) -> Seq<char> {
    "Ruby installation directory not found: "@ + path
        + "\n\nPlease verify the path exists or specify a different location\nusing the -R flag or RB_RUBIES_DIR environment variable."@
}

/// The message shown for a rubies directory that does not exist.
pub fn format_rubies_dir_not_found(path: &str) -> (r: String)
    ensures
        r@ == rubies_dir_not_found_message(path@),
{
    let a = concat("Ruby installation directory not found: ", path);
    concat(
        a.as_str(),
        "\n\nPlease verify the path exists or specify a different location\nusing the -R flag or RB_RUBIES_DIR environment variable.",
    )
}

/// The message shown for any other error.
pub fn format_general_error(msg: &str) -> (r: String)
    ensures
        r@ == "❌ "@ + msg@,
{
    concat("❌ ", msg)
}

/// The exit code of an error: 127 for a command not found (as shells do),
/// 1 otherwise.
pub fn error_exit_code(error: &ButlerError) -> (r: i32)
    ensures
        r == (if error@ is CommandNotFound {
            127i32
        } else {
            1i32
        }),
{
    match error {
        ButlerError::CommandNotFound(_) => 127,
        _ => 1,
    }
}

/// What is reported for an error, with the settings of the run: the message
/// of its kind (for no suitable Ruby, the rubies directory and the requested
/// version, each with the source it came from) and the exit code.
pub fn error_report(error: &ButlerError, config: &TrackedConfig) -> (r: (String, i32))
    ensures
        r.1 == (if error@ is CommandNotFound {
            127i32
        } else {
            1i32
        }),
        match error {
            ButlerError::NoSuitableRuby(_) => r.0@ == no_suitable_ruby_message(
                config.rubies_dir.value@,
                source_label(config.rubies_dir.source),
                match config.ruby_version {
                    Some(v) => Some((v.value@, source_label(v.source))),
                    None => None,
                },
            ),
            ButlerError::CommandNotFound(command) => exists|name: Seq<char>, gem: Seq<char>, bundle: Seq<char>|
                {
                    &&& r.0@ == #[trigger] command_not_found_message(name, gem, bundle)
                    &&& !has_escape(command@) ==> painted(command@, "93"@, name)
                    &&& !has_escape(command@) ==> painted("gem install "@ + command@, "36"@, gem)
                    &&& painted("bundle install"@, "36"@, bundle)
                },
            ButlerError::RubiesDirectoryNotFound(path) => r.0@ == rubies_dir_not_found_message(path@),
            ButlerError::General(msg) => r.0@ == "❌ "@ + msg@,
        },
{
    let message = match error {
        ButlerError::NoSuitableRuby(_) => {
            let requested = match &config.ruby_version {
                Some(v) => Some((v.value.clone(), owned(v.source.label()))),
                None => None,
            };
            format_no_suitable_ruby(
                config.rubies_dir.value.as_str(),
                owned(config.rubies_dir.source.label()),
                requested,
            )
        },
        ButlerError::CommandNotFound(command) => format_command_not_found(command.as_str()),
        ButlerError::RubiesDirectoryNotFound(path) => format_rubies_dir_not_found(path.as_str()),
        ButlerError::General(msg) => format_general_error(msg.as_str()),
    };
    (message, error_exit_code(error))
}

} // verus!
