//! The option lines of `rb help`.
use vstd::prelude::*;
use crate::text::{chars_of, concat, owned, string_of};

verus! {

/// What `str::to_uppercase` makes of a text.
pub uninterp spec fn uppercase(s: Seq<char>) -> Seq<char>;

/// An ASCII text.
pub open spec fn is_ascii_text(s: Seq<char>) -> bool {
    forall|i: int| 0 <= i < s.len() ==> #[trigger] s[i] <= '\u{7f}'
}

/// A character in upper case, for ASCII letters.
pub open spec fn ascii_upper(c: char) -> char {
    if 'a' <= c && c <= 'z' {
        ((c as int) - 32) as char
    } else {
        c
    }
}

/// Calls `str::to_uppercase`.
///
/// Claims: the result is the named [`uppercase`] of the text, and on ASCII
/// text it maps each lower-case letter to its capital and keeps every other
/// character, as the standard library documents.
#[verifier::external_body]
fn to_uppercase(s: &str) -> (r: String)
    ensures
        r@ == uppercase(s@),
        is_ascii_text(s@) ==> r@ == s@.map_values(|c: char| ascii_upper(c)),
{
    s.to_uppercase()
}

/// The number of bytes of a character in UTF-8.
pub open spec fn utf8_len(c: char) -> nat {
    if c <= '\u{7f}' {
        1
    } else if c <= '\u{7ff}' {
        2
    } else if c <= '\u{ffff}' {
        3
    } else {
        4
    }
}

/// The number of bytes of a text in UTF-8 (`str::len`).
pub open spec fn utf8_width(s: Seq<char>) -> nat
    decreases s.len(),
{
    if s.len() == 0 {
        0
    } else {
        utf8_width(s.drop_last()) + utf8_len(s.last())
    }
}

/// The UTF-8 length of a text (`str::len`), counted up to `cap`.
pub fn width_upto(s: &str, cap: usize) -> (r: usize)
    ensures
        r == if utf8_width(s@) < cap {
            utf8_width(s@)
        } else {
            cap as nat
        },
{
    let v = chars_of(s);
    let mut n: usize = 0;
    let mut i: usize = 0;
    proof {
        assert(v@.subrange(0, 0) =~= Seq::<char>::empty());
    }
    while i < v.len()
        invariant
            i <= v@.len(),
            v@ == s@,
            n == if utf8_width(v@.subrange(0, i as int)) < cap {
                utf8_width(v@.subrange(0, i as int))
            } else {
                cap as nat
            },
        decreases v.len() - i,
    {
        let c = v[i];
        proof {
            assert(v@.subrange(0, i + 1).drop_last() =~= v@.subrange(0, i as int));
        }
        let w: usize = if c <= '\u{7f}' {
            1
        } else if c <= '\u{7ff}' {
            2
        } else if c <= '\u{ffff}' {
            3
        } else {
            4
        };
        n = if cap - n > w {
            n + w
        } else {
            cap
        };
        i = i + 1;
    }
    proof {
        assert(v@.subrange(0, v@.len() as int) =~= v@);
    }
    n
}

/// The UTF-8 length of a text (`str::len`), counted up to 32.
pub fn capped_width(s: &str) -> (r: usize)
    ensures
        r == if utf8_width(s@) < 32 {
            utf8_width(s@)
        } else {
            32
        },
{
    width_upto(s, 32)
}

/// `s` with every `_` turned into `-`.
pub open spec fn dashed(s: Seq<char>) -> Seq<char> {
    s.map_values(|c: char| if c == '_' { '-' } else { c })
}

fn replace_underscores(s: &str) -> (r: String)
    ensures
        r@ == dashed(s@),
{
    let v = chars_of(s);
    let mut out: Vec<char> = Vec::new();
    let mut i: usize = 0;
    while i < v.len()
        invariant
            i <= v@.len(),
            v@ == s@,
            out@ == dashed(v@.subrange(0, i as int)),
        decreases v.len() - i,
    {
        let c = v[i];
        out.push(if c == '_' { '-' } else { c });
        proof {
            assert(dashed(v@.subrange(0, i + 1)) =~= dashed(v@.subrange(0, i as int)).push(
                if c == '_' { '-' } else { c },
            ));
        }
        i = i + 1;
    }
    proof {
        assert(v@.subrange(0, v@.len() as int) =~= v@);
    }
    string_of(out.as_slice())
}

/// The parts of an option's help line: the flag (`-s, --long`, or either),
/// the value placeholder ` <ID>` of an option that takes a value, the
/// padding that aligns the help text at column 31 (at least one space), the
/// help text and the ` [env: VAR]` note.
#[derive(Debug, Clone)]
pub struct ArgumentLine {
    pub flag: String,
    pub value_name: String,
    pub padding: usize,
    pub help: String,
    pub env_var: String,
}

/// The flag text of an option.
pub open spec fn flag_text(short: Option<char>, long: Option<Seq<char>>) -> Seq<char> {
    match (short, long) {
        (Some(s), Some(l)) => seq!['-', s] + ", --"@ + l,
        (Some(s), None) => seq!['-', s],
        (None, Some(l)) => "--"@ + l,
        (None, None) => Seq::empty(),
    }
}

/// The spaces between the flag and value and the help text.
pub open spec fn padding_for(width: nat) -> nat {
    if width < 31 {
        (31 - width) as nat
    } else {
        1
    }
}

/// The parts of an option's help line (see [`ArgumentLine`]).
pub fn argument_line(
    short: Option<char>,
    long: Option<&str>,
    takes_values: bool,
    id: &str,
    help: Option<&str>,
    env: Option<&str>,
) -> (r: ArgumentLine)
    ensures
        r.flag@ == flag_text(short, crate::butler::opt_slice(long)),
        takes_values ==> r.value_name@ == " <"@ + dashed(uppercase(id@)) + ">"@,
        !takes_values ==> r.value_name@.len() == 0,
        r.padding == padding_for(utf8_width(r.flag@) + utf8_width(r.value_name@)),
        r.help@ == (match help {
            Some(h) => h@,
            None => Seq::<char>::empty(),
        }),
        r.env_var@ == (match env {
            Some(e) => " [env: "@ + e@ + "]"@,
            None => Seq::<char>::empty(),
        }),
{
    let mut flag = String::new();
    match short {
        Some(s) => {
            let mut v: Vec<char> = Vec::new();
            v.push('-');
            v.push(s);
            flag = string_of(v.as_slice());
            proof {
                assert(v@ =~= seq!['-', s]);
            }
        },
        None => {},
    }
    match long {
        Some(l) => {
            if short.is_some() {
                flag.append(", --");
            } else {
                flag.append("--");
            }
            flag.append(l);
        },
        None => {},
    }
    proof {
        reveal_strlit(", --");
        reveal_strlit("--");
        assert(flag@ =~= flag_text(short, crate::butler::opt_slice(long)));
    }
    let value_name = if takes_values {
        let up = to_uppercase(id);
        let d = replace_underscores(up.as_str());
        let a = concat(" <", d.as_str());
        concat(a.as_str(), ">")
    } else {
        String::new()
    };
    let fw = capped_width(flag.as_str());
    let vw = capped_width(value_name.as_str());
    let width = fw + vw;
    let padding: usize = if width < 31 {
        31 - width
    } else {
        1
    };
    let help_text = match help {
        Some(h) => owned(h),
        None => String::new(),
    };
    let env_var = match env {
        Some(e) => {
            let a = concat(" [env: ", e);
            concat(a.as_str(), "]")
        },
        None => String::new(),
    };
    ArgumentLine { flag, value_name, padding, help: help_text, env_var }
}

} // verus!
