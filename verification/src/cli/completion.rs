//! Bash completion: what to offer for a command line being typed.
//!
//! The shell hands `rb __bash_complete` the line and the cursor position;
//! [`plan_completion`] decides what kind of words complete it, and the
//! program lists them.
use vstd::prelude::*;
use crate::ruby::RubyRuntime;
use crate::text::{
    chars_of, is_ws, owned, split_whitespace, starts_with, str_eq, str_starts_with,
    usize_from_text, parse_usize, views_of, words_of,
};
use crate::version::version_text;
use crate::project::{lemma_text_lt_order, text_less, text_lt};
use crate::cli::help::{utf8_len, utf8_width, width_upto};

verus! {

/// What a command completes its first argument with.
#[derive(Debug, Clone, Copy, PartialEq, Eq, Structural)]
pub enum CompletionBehavior {
    /// The project's scripts.
    Scripts,
    /// The executables of the environment.
    Binstubs,
    /// Nothing of its own.
    DefaultOnly,
}

/// What completes the first argument of a command: scripts for `run`
/// (`r`), executables for `exec` (`x`), nothing for the others.
pub open spec fn behavior_of(command: Seq<char>) -> CompletionBehavior {
    if command == "run"@ || command == "r"@ {
        CompletionBehavior::Scripts
    } else if command == "exec"@ || command == "x"@ {
        CompletionBehavior::Binstubs
    } else {
        CompletionBehavior::DefaultOnly
    }
}

/// What completes the first argument of a command (see [`behavior_of`]).
pub fn get_completion_behavior(command: &str) -> (r: CompletionBehavior)
    ensures
        r == behavior_of(command@),
{
    if str_eq(command, "run") || str_eq(command, "r") {
        CompletionBehavior::Scripts
    } else if str_eq(command, "exec") || str_eq(command, "x") {
        CompletionBehavior::Binstubs
    } else {
        CompletionBehavior::DefaultOnly
    }
}

/// The rubies directory a line names: the word after the first `-R` or
/// `--rubies-dir` that has a word after it.
pub open spec fn rubies_dir_from(ws: Seq<Seq<char>>) -> Option<Seq<char>>
    decreases ws.len(),
{
    if ws.len() < 2 {
        None
    } else if ws[0] == "-R"@ || ws[0] == "--rubies-dir"@ {
        Some(ws[1])
    } else {
        rubies_dir_from(ws.drop_first())
    }
}

/// The rubies directory a line's words name (see [`rubies_dir_from`]).
pub fn extract_rubies_dir_from_line(words: &[String]) -> (r: Option<String>)
    ensures
        match r {
            Some(d) => rubies_dir_from(views_of(words@)) == Some(d@),
            None => rubies_dir_from(views_of(words@)) is None,
        },
{
    let ghost ws = views_of(words@);
    let mut i: usize = 0;
    proof {
        assert(ws.subrange(0, ws.len() as int) =~= ws);
    }
    while i < words.len()
        invariant
            i <= words@.len(),
            ws == views_of(words@),
            rubies_dir_from(ws) == rubies_dir_from(ws.subrange(i as int, ws.len() as int)),
        decreases words.len() - i,
    {
        proof {
            let rest = ws.subrange(i as int, ws.len() as int);
            assert(rest.drop_first() =~= ws.subrange(i + 1, ws.len() as int));
            assert(rest[0] == words@[i as int]@);
            if i + 1 < words@.len() {
                assert(rest[1] == words@[i + 1]@);
            }
        }
        if (str_eq(words[i].as_str(), "-R") || str_eq(words[i].as_str(), "--rubies-dir")) && i + 1
            < words.len() {
            return Some(words[i + 1].clone());
        }
        i = i + 1;
    }
    None
}

/// Does a flag take the next word as its value?
pub open spec fn takes_value(w: Seq<char>) -> bool {
    ||| w == "-r"@
    ||| w == "--ruby"@
    ||| w == "-R"@
    ||| w == "--rubies-dir"@
    ||| w == "-c"@
    ||| w == "--config"@
    ||| w == "-P"@
    ||| w == "--project"@
    ||| w == "-G"@
    ||| w == "--gem-home"@
    ||| w == "--log-level"@
}

/// Is `w` a flag (does it begin with `-`)?
pub open spec fn is_flag(w: Seq<char>) -> bool {
    w.len() > 0 && w[0] == '-'
}

/// One more than an optional offset.
pub open spec fn shifted(o: Option<nat>) -> Option<nat> {
    match o {
        Some(n) => Some(n + 1),
        None => None,
    }
}

/// The offset in `ws` of the first word that is neither a flag nor a
/// flag's value (the value of a flag being skipped when `skip`).
pub open spec fn command_offset(ws: Seq<Seq<char>>, skip: bool) -> Option<nat>
    decreases ws.len(),
{
    if ws.len() == 0 {
        None
    } else if skip {
        shifted(command_offset(ws.drop_first(), false))
    } else if takes_value(ws[0]) {
        shifted(command_offset(ws.drop_first(), true))
    } else if !is_flag(ws[0]) {
        Some(0)
    } else {
        shifted(command_offset(ws.drop_first(), false))
    }
}

/// `o` plus `k`.
pub open spec fn plus(o: Option<nat>, k: nat) -> Option<nat> {
    match o {
        Some(n) => Some(n + k),
        None => None,
    }
}

fn is_value_flag(w: &str) -> (r: bool)
    ensures
        r == takes_value(w@),
{
    str_eq(w, "-r") || str_eq(w, "--ruby") || str_eq(w, "-R") || str_eq(w, "--rubies-dir")
        || str_eq(w, "-c") || str_eq(w, "--config") || str_eq(w, "-P") || str_eq(w, "--project")
        || str_eq(w, "-G") || str_eq(w, "--gem-home") || str_eq(w, "--log-level")
}

fn starts_with_dash(w: &str) -> (r: bool)
    ensures
        r == is_flag(w@),
{
    let v = chars_of(w);
    v.len() > 0 && v[0] == '-'
}

/// The offset, among the words after the first, of the command word (see
/// [`command_offset`]).
fn find_command_offset(words: &[String]) -> (r: Option<usize>)
    requires
        words@.len() >= 1,
    ensures
        match r {
            Some(k) => command_offset(views_of(words@).drop_first(), false) == Some(k as nat),
            None => command_offset(views_of(words@).drop_first(), false) is None,
        },
        r matches Some(k) ==> k + 1 < words@.len(),
{
    let ghost ws = views_of(words@);
    let mut skip = false;
    let mut j: usize = 1;
    proof {
        assert(ws.subrange(1, ws.len() as int) =~= ws.drop_first());
    }
    while j < words.len()
        invariant
            1 <= j <= words@.len(),
            ws == views_of(words@),
            command_offset(ws.drop_first(), false) == plus(
                command_offset(ws.subrange(j as int, ws.len() as int), skip),
                (j - 1) as nat,
            ),
        decreases words.len() - j,
    {
        proof {
            let rest = ws.subrange(j as int, ws.len() as int);
            assert(rest.drop_first() =~= ws.subrange(j + 1, ws.len() as int));
            assert(rest[0] == words@[j as int]@);
        }
        if skip {
            skip = false;
        } else if is_value_flag(words[j].as_str()) {
            skip = true;
        } else if !starts_with_dash(words[j].as_str()) {
            return Some(j - 1);
        }
        j = j + 1;
    }
    None
}

/// What completes the line.
#[derive(Debug, Clone, PartialEq, Eq)]
pub enum CompletionPlan {
    /// Command names (and visible aliases) beginning with the prefix.
    Commands(String),
    /// Installed Ruby versions beginning with the prefix, from the rubies
    /// directory the line names (or the configured one).
    RubyVersions { rubies_dir: Option<String>, prefix: String },
    /// Shell names beginning with the prefix.
    Shells(String),
    /// The flags.
    Flags,
    /// The project's script names beginning with the prefix.
    Scripts(String),
    /// The environment's executables beginning with the prefix.
    Binstubs(String),
    /// Nothing.
    Nothing,
}

/// A completion plan as plain values.
pub enum PlanView {
    Commands(Seq<char>),
    RubyVersions(Option<Seq<char>>, Seq<char>),
    Shells(Seq<char>),
    Flags,
    Scripts(Seq<char>),
    Binstubs(Seq<char>),
    Nothing,
}

impl View for CompletionPlan {
    type V = PlanView;

    open spec fn view(&self) -> PlanView {
        match self {
            CompletionPlan::Commands(p) => PlanView::Commands(p@),
            CompletionPlan::RubyVersions { rubies_dir, prefix } => PlanView::RubyVersions(
                match rubies_dir {
                    Some(d) => Some(d@),
                    None => None,
                },
                prefix@,
            ),
            CompletionPlan::Shells(p) => PlanView::Shells(p@),
            CompletionPlan::Flags => PlanView::Flags,
            CompletionPlan::Scripts(p) => PlanView::Scripts(p@),
            CompletionPlan::Binstubs(p) => PlanView::Binstubs(p@),
            CompletionPlan::Nothing => PlanView::Nothing,
        }
    }
}

/// How many leading characters of `s` fit in `b` bytes of UTF-8.
pub open spec fn chars_within(s: Seq<char>, b: int) -> nat
    decreases s.len(),
{
    if s.len() == 0 {
        0
    } else if utf8_len(s[0]) <= b {
        1 + chars_within(s.drop_first(), b - utf8_len(s[0]))
    } else {
        0
    }
}

/// The cursor as a byte offset into the line (`str::len` when it cannot
/// be read, counted up to `usize::MAX`), and at most the line's length.
pub open spec fn cursor_bytes(line: Seq<char>, cursor: Seq<char>) -> int {
    let w = utf8_width(line);
    let c: int = match usize_from_text(cursor) {
        Some(n) => n as int,
        None => if w < usize::MAX {
            w as int
        } else {
            usize::MAX as int
        },
    };
    if c < w {
        c
    } else {
        w as int
    }
}

/// The line up to the cursor, a byte offset.
pub open spec fn line_before_cursor(line: Seq<char>, cursor: Seq<char>) -> Seq<char> {
    line.take(chars_within(line, cursor_bytes(line, cursor)) as int)
}

/// The cursor falls between two characters (slicing the line there does
/// not panic).
pub open spec fn cursor_on_boundary(line: Seq<char>, cursor: Seq<char>) -> bool {
    utf8_width(line_before_cursor(line, cursor)) == cursor_bytes(line, cursor)
}

/// What completes a line whose text before the cursor is `l`: with at most
/// one word, the commands; after `-r`/`--ruby`, the Ruby versions; after
/// `shell-integration`, the shells; for a word being typed that begins with
/// `-`, the flags; while the command word is typed, the commands; for the
/// first argument of `run` or `exec`, scripts or executables; otherwise
/// nothing.
pub open spec fn plan_spec(l: Seq<char>) -> PlanView {
    let words = words_of(l);
    if words.len() <= 1 {
        PlanView::Commands(Seq::empty())
    } else {
        let ends_space = l.len() > 0 && l.last() == ' ';
        let current: Seq<char> = if ends_space {
            Seq::empty()
        } else {
            words.last()
        };
        let prev = if ends_space {
            words.last()
        } else {
            words[words.len() - 2]
        };
        if prev == "-r"@ || prev == "--ruby"@ {
            PlanView::RubyVersions(rubies_dir_from(words), current)
        } else if prev == "shell-integration"@ {
            PlanView::Shells(current)
        } else if is_flag(current) {
            PlanView::Flags
        } else {
            match command_offset(words.drop_first(), false) {
                None => PlanView::Commands(current),
                Some(k) => {
                    let command = words[k as int + 1];
                    if current == command && !ends_space {
                        PlanView::Commands(current)
                    } else {
                        let pos: int = k as int + 1;
                        let after: int = if ends_space {
                            words.len() - pos - 1
                        } else if words.len() >= pos + 2 {
                            words.len() - pos - 2
                        } else {
                            0
                        };
                        match behavior_of(command) {
                            CompletionBehavior::Scripts => if after == 0 {
                                PlanView::Scripts(current)
                            } else {
                                PlanView::Nothing
                            },
                            CompletionBehavior::Binstubs => if after == 0 {
                                PlanView::Binstubs(current)
                            } else {
                                PlanView::Nothing
                            },
                            CompletionBehavior::DefaultOnly => PlanView::Nothing,
                        }
                    }
                },
            }
        }
    }
}

/// Decides what completes `line` with the cursor at `cursor_pos` (see
/// [`line_before_cursor`] and [`plan_spec`]).
pub fn plan_completion(line: &str, cursor_pos: &str) -> (r: CompletionPlan)
    requires
        cursor_on_boundary(line@, cursor_pos@),
    ensures
        r@ == plan_spec(line_before_cursor(line@, cursor_pos@)),
{
    let all = chars_of(line);
    let width = width_upto(line, usize::MAX);
    let cursor = match parse_usize(cursor_pos) {
        Some(n) => n,
        None => width,
    };
    let budget = if cursor < width {
        cursor
    } else {
        width
    };
    let ghost b = cursor_bytes(line@, cursor_pos@);
    let mut l: Vec<char> = Vec::new();
    let mut used: usize = 0;
    let mut i: usize = 0;
    proof {
        assert(budget == b);
        assert(all@.subrange(0, 0) =~= Seq::<char>::empty());
        assert(all@.subrange(0, all@.len() as int) =~= all@);
    }
    while i < all.len()
        invariant
            all@ == line@,
            i <= all@.len(),
            used <= budget,
            budget == b,
            l@ == all@.subrange(0, i as int),
            used == utf8_width(l@),
            chars_within(line@, b) == i + chars_within(all@.subrange(i as int, all@.len() as int), budget - used),
        ensures
            i == all@.len() || utf8_len(all@[i as int]) > budget - used,
        decreases all.len() - i,
    {
        let c = all[i];
        let w: usize = if c <= '\u{7f}' {
            1
        } else if c <= '\u{7ff}' {
            2
        } else if c <= '\u{ffff}' {
            3
        } else {
            4
        };
        let ghost rest = all@.subrange(i as int, all@.len() as int);
        proof {
            assert(w == utf8_len(c));
            assert(rest[0] == c);
            assert(rest.drop_first() =~= all@.subrange(i + 1, all@.len() as int));
        }
        if w > budget - used {
            break;
        }
        l.push(c);
        proof {
            assert(all@.subrange(0, i + 1) =~= all@.subrange(0, i as int).push(c));
            assert(l@.drop_last() =~= all@.subrange(0, i as int));
        }
        used = used + w;
        i = i + 1;
    }
    let ghost lv = l@;
    proof {
        let rest = all@.subrange(i as int, all@.len() as int);
        if i == all@.len() {
            assert(rest =~= Seq::<char>::empty());
        }
        assert(chars_within(line@, b) == i);
        assert(line@.take(i as int) =~= lv);
        assert(lv == line_before_cursor(line@, cursor_pos@));
    }
    let words = split_whitespace(l.as_slice());
    let ghost ws = views_of(words@);
    if words.len() <= 1 {
        return CompletionPlan::Commands(String::new());
    }
    let ends_space = l.len() > 0 && l[l.len() - 1] == ' ';
    let n = words.len();
    let current: String = if ends_space {
        String::new()
    } else {
        words[n - 1].clone()
    };
    let prev: &str = if ends_space {
        words[n - 1].as_str()
    } else {
        words[n - 2].as_str()
    };
    proof {
        assert(ws.last() == words@[n - 1]@);
        assert(ws[n - 2] == words@[n - 2]@);
    }
    if str_eq(prev, "-r") || str_eq(prev, "--ruby") {
        let dir = extract_rubies_dir_from_line(words.as_slice());
        return CompletionPlan::RubyVersions { rubies_dir: dir, prefix: current };
    }
    if str_eq(prev, "shell-integration") {
        return CompletionPlan::Shells(current);
    }
    if starts_with_dash(current.as_str()) {
        return CompletionPlan::Flags;
    }
    let offset = find_command_offset(words.as_slice());
    let k = match offset {
        None => {
            return CompletionPlan::Commands(current);
        },
        Some(k) => k,
    };
    let command = words[k + 1].as_str();
    proof {
        assert(ws[k + 1] == words@[k + 1]@);
    }
    if str_eq(current.as_str(), command) && !ends_space {
        return CompletionPlan::Commands(current);
    }
    let pos = k + 1;
    let after: usize = if ends_space {
        n - pos - 1
    } else if n >= pos + 2 {
        n - pos - 2
    } else {
        0
    };
    match get_completion_behavior(command) {
        CompletionBehavior::Scripts => if after == 0 {
            CompletionPlan::Scripts(current)
        } else {
            CompletionPlan::Nothing
        },
        CompletionBehavior::Binstubs => if after == 0 {
            CompletionPlan::Binstubs(current)
        } else {
            CompletionPlan::Nothing
        },
        CompletionBehavior::DefaultOnly => CompletionPlan::Nothing,
    }
}

/// The names of `names` that begin with `prefix`, in order.
pub open spec fn with_prefix(names: Seq<Seq<char>>, prefix: Seq<char>) -> Seq<Seq<char>> {
    names.filter(|n: Seq<char>| starts_with(n, prefix))
}

/// The names that begin with `prefix`, in order.
pub fn names_with_prefix(names: &[String], prefix: &str) -> (r: Vec<String>)
    ensures
        views_of(r@) == with_prefix(views_of(names@), prefix@),
{
    let ghost all = views_of(names@);
    let mut out: Vec<String> = Vec::new();
    let mut i: usize = 0;
    proof {
        assert(all.subrange(0, 0) =~= Seq::<Seq<char>>::empty());
        assert(views_of(out@) =~= with_prefix(all.subrange(0, 0), prefix@));
    }
    while i < names.len()
        invariant
            i <= names@.len(),
            all == views_of(names@),
            views_of(out@) == with_prefix(all.subrange(0, i as int), prefix@),
        decreases names.len() - i,
    {
        proof {
            let pre = all.subrange(0, i as int);
            let post = all.subrange(0, i + 1);
            assert(post =~= pre.push(all[i as int]));
            assert(post.drop_last() =~= pre);
            reveal(Seq::filter);
        }
        if str_starts_with(names[i].as_str(), prefix) {
            let ghost before = out@;
            out.push(names[i].clone());
            proof {
                assert(views_of(out@) =~= views_of(before).push(names@[i as int]@));
            }
        }
        i = i + 1;
    }
    proof {
        assert(all.subrange(0, names@.len() as int) =~= all);
    }
    out
}

/// The top-level entries of a TOML text, as `toml` parses it into a table:
/// each key in the table's order with, where its value is itself a table,
/// that table's keys; `None` where the text does not parse.
pub uninterp spec fn toml_top_level_tables(content: Seq<char>) -> Option<
    Seq<(Seq<char>, Option<Seq<Seq<char>>>)>,
>;

/// A top-level TOML entry as plain values.
pub open spec fn entry_view(e: (String, Option<Vec<String>>)) -> (Seq<char>, Option<Seq<Seq<char>>>) {
    (
        e.0@,
        match e.1 {
            Some(keys) => Some(views_of(keys@)),
            None => None,
        },
    )
}

/// The top-level entries of a parsed TOML text as plain values.
pub open spec fn opt_tables(r: Option<Vec<(String, Option<Vec<String>>)>>) -> Option<
    Seq<(Seq<char>, Option<Seq<Seq<char>>>)>,
> {
    match r {
        Some(entries) => Some(entries@.map_values(|e: (String, Option<Vec<String>>)| entry_view(e))),
        None => None,
    }
}

/// Calls `toml::from_str` into a `toml::Table` and gives its entries in
/// order: each key, with the keys of its value where that value is a table.
///
/// Claims: the result is the named [`toml_top_level_tables`] of the text, a
/// function of the text alone (`None` exactly where `toml` refuses it).
#[verifier::external_body]
fn toml_top_level(content: &str) -> (r: Option<Vec<(String, Option<Vec<String>>)>>)
    ensures
        opt_tables(r) == toml_top_level_tables(content@),
{
    match toml::from_str::<toml::Table>(content) {
        Ok(table) => {
            let mut entries = Vec::new();
            for (key, value) in table.iter() {
                let keys = match value {
                    toml::Value::Table(inner) => Some(inner.keys().cloned().collect()),
                    _ => None,
                };
                entries.push((key.clone(), keys));
            }
            Some(entries)
        },
        Err(_) => None,
    }
}

/// The keys of the table under the first entry named `name`: none where
/// that entry is not a table or there is no such entry.
pub open spec fn table_keys_named(entries: Seq<(Seq<char>, Option<Seq<Seq<char>>>)>, name: Seq<char>) -> Seq<
    Seq<char>,
>
    decreases entries.len(),
{
    if entries.len() == 0 {
        Seq::empty()
    } else if entries[0].0 == name {
        match entries[0].1 {
            Some(keys) => keys,
            None => Seq::empty(),
        }
    } else {
        table_keys_named(entries.drop_first(), name)
    }
}

/// The script names of a parsed project text: the keys of its `scripts`
/// table; none where the text did not parse or has no such table.
pub open spec fn script_table_keys(top: Option<Seq<(Seq<char>, Option<Seq<Seq<char>>>)>>) -> Seq<
    Seq<char>,
> {
    match top {
        Some(entries) => table_keys_named(entries, "scripts"@),
        None => Seq::empty(),
    }
}

/// The script names of a parsed project text (see [`script_table_keys`]).
pub fn scripts_table_keys(top: Option<Vec<(String, Option<Vec<String>>)>>) -> (r: Vec<String>)
    ensures
        views_of(r@) == script_table_keys(opt_tables(top)),
{
    let mut entries = match top {
        Some(entries) => entries,
        None => {
            return Vec::new();
        },
    };
    let ghost all = entries@.map_values(|e: (String, Option<Vec<String>>)| entry_view(e));
    let mut i: usize = 0;
    proof {
        assert(all.subrange(0, all.len() as int) =~= all);
        assert(opt_tables(top) == Some(all));
    }
    while i < entries.len()
        invariant
            i <= entries@.len(),
            script_table_keys(opt_tables(top)) == table_keys_named(all, "scripts"@),
            all == entries@.map_values(|e: (String, Option<Vec<String>>)| entry_view(e)),
            table_keys_named(all, "scripts"@) == table_keys_named(all.subrange(i as int, all.len() as int), "scripts"@),
        decreases entries.len() - i,
    {
        proof {
            let rest = all.subrange(i as int, all.len() as int);
            assert(rest[0] == entry_view(entries@[i as int]));
            assert(rest.drop_first() =~= all.subrange(i + 1, all.len() as int));
        }
        if str_eq(entries[i].0.as_str(), "scripts") {
            let ghost e = entries@[i as int];
            let (_, keys) = entries.remove(i);
            let found = match keys {
                Some(k) => k,
                None => Vec::new(),
            };
            proof {
                let rest = all.subrange(i as int, all.len() as int);
                assert(rest[0] == entry_view(e));
                assert(views_of(found@) =~= table_keys_named(rest, "scripts"@));
            }
            return found;
        }
        i = i + 1;
    }
    proof {
        assert(all.subrange(i as int, all.len() as int) =~= Seq::<(Seq<char>, Option<Seq<Seq<char>>>)>::empty());
    }
    Vec::new()
}

/// The script names of a TOML project text that begin with `prefix`, in
/// order (see [`script_table_keys`]).
pub fn script_name_suggestions(content: &str, prefix: &str) -> (r: Vec<String>)
    ensures
        views_of(r@) == with_prefix(script_table_keys(toml_top_level_tables(content@)), prefix@),
{
    let names = scripts_table_keys(toml_top_level(content));
    names_with_prefix(names.as_slice(), prefix)
}

/// The versions of the installations, as `semver` displays them, that begin
/// with `prefix`, in order.
pub fn matching_versions(rubies: &[RubyRuntime], prefix: &str) -> (r: Vec<String>)
    ensures
        views_of(r@) == with_prefix(
            rubies@.map_values(|x: RubyRuntime| version_text(x.version@)),
            prefix@,
        ),
{
    let mut texts: Vec<String> = Vec::new();
    let ghost all = rubies@.map_values(|x: RubyRuntime| version_text(x.version@));
    let mut i: usize = 0;
    proof {
        assert(views_of(texts@) =~= all.subrange(0, 0));
    }
    while i < rubies.len()
        invariant
            i <= rubies@.len(),
            all == rubies@.map_values(|x: RubyRuntime| version_text(x.version@)),
            views_of(texts@) == all.subrange(0, i as int),
        decreases rubies.len() - i,
    {
        let t = rubies[i].version.to_text();
        let ghost before = texts@;
        texts.push(t);
        proof {
            assert(views_of(texts@) =~= views_of(before).push(t@));
            assert(all.subrange(0, i + 1) =~= all.subrange(0, i as int).push(all[i as int]));
        }
        i = i + 1;
    }
    proof {
        assert(all.subrange(0, rubies@.len() as int) =~= all);
    }
    names_with_prefix(texts.as_slice(), prefix)
}

/// The shell names that begin with `prefix`: `bash` or none.
pub fn shell_suggestions(prefix: &str) -> (r: Vec<String>)
    ensures
        views_of(r@) == (if starts_with("bash"@, prefix@) {
            seq!["bash"@]
        } else {
            Seq::<Seq<char>>::empty()
        }),
{
    let mut v: Vec<String> = Vec::new();
    if str_starts_with("bash", prefix) {
        v.push(owned("bash"));
    }
    proof {
        assert(views_of(v@) =~= (if starts_with("bash"@, prefix@) {
            seq!["bash"@]
        } else {
            Seq::<Seq<char>>::empty()
        }));
    }
    v
}

/// Two texts are equal or one comes before the other.
pub proof fn lemma_text_lt_total(a: Seq<char>, b: Seq<char>)
    ensures
        text_lt(a, b) || text_lt(b, a) || a == b,
    decreases a.len(),
{
    if a.len() > 0 && b.len() > 0 && a[0] == b[0] {
        lemma_text_lt_total(a.drop_first(), b.drop_first());
        if a.drop_first() == b.drop_first() {
            assert(a =~= seq![a[0]] + a.drop_first());
            assert(b =~= seq![b[0]] + b.drop_first());
        }
    } else if a.len() == 0 && b.len() == 0 {
        assert(a =~= b);
    }
}

/// `s` is in strictly increasing order of texts.
pub open spec fn strictly_sorted(s: Seq<Seq<char>>) -> bool {
    forall|i: int, j: int| 0 <= i < j < s.len() ==> text_lt(#[trigger] s[i], #[trigger] s[j])
}

/// The executables to offer for `rb exec`: the names (of the files in the
/// environment's bin directories) that begin with the prefix, each once,
/// in the order of texts.
pub fn binstub_suggestions(names: &[String], prefix: &str) -> (r: Vec<String>)
    ensures
        strictly_sorted(views_of(r@)),
        forall|s: Seq<char>|
            #[trigger] views_of(r@).contains(s) <==> with_prefix(views_of(names@), prefix@).contains(s),
{
    let ghost all = views_of(names@);
    let mut out: Vec<String> = Vec::new();
    let mut i: usize = 0;
    proof {
        assert(all.subrange(0, 0) =~= Seq::<Seq<char>>::empty());
    }
    while i < names.len()
        invariant
            i <= names@.len(),
            all == views_of(names@),
            strictly_sorted(views_of(out@)),
            forall|s: Seq<char>|
                #[trigger] views_of(out@).contains(s) <==> with_prefix(all.subrange(0, i as int), prefix@).contains(s),
        decreases names.len() - i,
    {
        let ghost before = views_of(out@);
        let name = &names[i];
        proof {
            let sub = all.subrange(0, i as int);
            let next = all.subrange(0, i + 1);
            assert(next =~= sub.push(name@));
            assert(with_prefix(next, prefix@) == (if starts_with(name@, prefix@) {
                with_prefix(sub, prefix@).push(name@)
            } else {
                with_prefix(sub, prefix@)
            })) by {
                reveal(Seq::filter);
                assert(next.drop_last() =~= sub);
            }
            assert forall|x: Seq<char>| #[trigger] with_prefix(next, prefix@).contains(x) <==> (
            with_prefix(sub, prefix@).contains(x) || (starts_with(name@, prefix@) && x == name@)) by {
                if starts_with(name@, prefix@) {
                    vstd::seq_lib::lemma_seq_contains_after_push(with_prefix(sub, prefix@), name@, x);
                }
            }
        }
        if str_starts_with(name.as_str(), prefix) {
            let mut k: usize = 0;
            while k < out.len() && text_less(out[k].as_str(), name.as_str())
                invariant
                    k <= out@.len(),
                    views_of(out@) == before,
                    forall|j: int| 0 <= j < k ==> text_lt(#[trigger] before[j], name@),
                decreases out.len() - k,
            {
                k = k + 1;
            }
            let present = k < out.len() && str_eq(out[k].as_str(), name.as_str());
            if !present {
                proof {
                    if k < out@.len() {
                        lemma_text_lt_total(before[k as int], name@);
                    }
                }
                out.insert(k, name.clone());
                proof {
                    let after = views_of(out@);
                    assert(after =~= before.insert(k as int, name@));
                    assert forall|a: int, b: int| 0 <= a < b < after.len() implies text_lt(
                        #[trigger] after[a],
                        #[trigger] after[b],
                    ) by {
                        if b < k {
                        } else if b == k {
                        } else if a < k {
                            lemma_text_lt_order(before[a], name@, before[b - 1]);
                            if b - 1 > k {
                                lemma_text_lt_order(name@, before[k as int], before[b - 1]);
                            }
                        } else if a == k {
                            if b - 1 > k {
                                lemma_text_lt_order(name@, before[k as int], before[b - 1]);
                            }
                        } else {
                        }
                    }
                    assert forall|s: Seq<char>| #[trigger] after.contains(s) <==> (before.contains(s)
                        || s == name@) by {
                        if after.contains(s) {
                            let j = choose|j: int| 0 <= j < after.len() && after[j] == s;
                            if j < k {
                                assert(before[j] == s);
                            } else if j > k {
                                assert(before[j - 1] == s);
                            }
                        }
                        if before.contains(s) {
                            let j = choose|j: int| 0 <= j < before.len() && before[j] == s;
                            if j < k {
                                assert(after[j] == s);
                            } else {
                                assert(after[j + 1] == s);
                            }
                        }
                        if s == name@ {
                            assert(after[k as int] == s);
                        }
                    }
                }
            } else {
                proof {
                    assert(before[k as int] == name@);
                }
            }
        }
        i = i + 1;
    }
    proof {
        assert(all.subrange(0, names@.len() as int) =~= all);
    }
    out
}

} // verus!
