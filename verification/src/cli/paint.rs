//! Terminal colours, through the `colored` crate.
use vstd::prelude::*;
use colored::Colorize;

verus! {

/// `text` as `colored` displays it with the ANSI colour code `code`: plainly
/// when colours are off, else between the code's escape and the reset.
pub open spec fn painted(text: Seq<char>, code: Seq<char>, r: Seq<char>) -> bool {
    r == text || r == "\u{1b}["@ + code + "m"@ + text + "\u{1b}[0m"@
}

/// Does `s` hold an escape character?
pub open spec fn has_escape(s: Seq<char>) -> bool {
    s.contains('\u{1b}')
}

/// Calls `Colorize::cyan` on the text and displays the result.
///
/// Claims: the text comes out plain (colours off: `NO_COLOR`, no terminal,
/// ...) or wrapped in the escape of code `36` and the reset, as
/// `ColoredString`'s `Display` writes it; for a text holding an escape
/// character nothing is claimed (`colored` then rewrites inner resets).
#[verifier::external_body]
pub(crate) fn cyan(text: &str) -> (r: String)
    ensures
        !has_escape(text@) ==> painted(text@, "36"@, r@),
{
    text.cyan().to_string()
}

/// Calls `Colorize::bright_yellow` on the text and displays the result.
///
/// Claims: as for [`cyan`], with code `93`.
#[verifier::external_body]
pub(crate) fn bright_yellow(text: &str) -> (r: String)
    ensures
        !has_escape(text@) ==> painted(text@, "93"@, r@),
{
    text.bright_yellow().to_string()
}

} // verus!
