use owo_colors::colors::xterm::{UserBrightCyan, UserBrightMagenta, UserBrightRed, UserBrightYellow};
use owo_colors::OwoColorize;
use vstd::prelude::*;

verus! {

/// `s` between the escape codes that turn bold on and reset the style.
pub open spec fn bold_spec(s: Seq<char>) -> Seq<char> {
    "\x1b[1m"@ + s + "\x1b[0m"@
}

/// `inner` in the xterm foreground colour numbered `code`, then the default
/// foreground again.
pub open spec fn fg_spec(code: Seq<char>, inner: Seq<char>) -> Seq<char> {
    "\x1b[38;5;"@ + code + "m"@ + inner + "\x1b[39m"@
}

/// How `{:?}` writes a string: quoted and escaped.
pub uninterp spec fn debug_str(s: Seq<char>) -> Seq<char>;

/// Relies on owo_colors' `bold`, whose Display writes ESC[1m, the text, ESC[0m.
#[verifier::external_body]
pub(crate) fn bold(s: &str) -> (r: String)
    ensures
        r@ == bold_spec(s@),
{
    format!("{}", s.bold())
}

/// Relies on owo_colors' `bold().fg::<UserBrightRed>()`: xterm colour 9 round
/// the bold text.
#[verifier::external_body]
pub(crate) fn bold_bright_red(s: &str) -> (r: String)
    ensures
        r@ == fg_spec("9"@, bold_spec(s@)),
{
    format!("{}", s.bold().fg::<UserBrightRed>())
}

/// Relies on owo_colors' `bold().fg::<UserBrightYellow>()`: xterm colour 11
/// round the bold text.
#[verifier::external_body]
pub(crate) fn bold_bright_yellow(s: &str) -> (r: String)
    ensures
        r@ == fg_spec("11"@, bold_spec(s@)),
{
    format!("{}", s.bold().fg::<UserBrightYellow>())
}

/// Relies on owo_colors' `bold().fg::<UserBrightMagenta>()`: xterm colour 13
/// round the bold text.
#[verifier::external_body]
pub(crate) fn bold_bright_magenta(s: &str) -> (r: String)
    ensures
        r@ == fg_spec("13"@, bold_spec(s@)),
{
    format!("{}", s.bold().fg::<UserBrightMagenta>())
}

/// Relies on owo_colors' `bold().fg::<UserBrightCyan>()`: xterm colour 14
/// round the bold text.
#[verifier::external_body]
pub(crate) fn bold_bright_cyan(s: &str) -> (r: String)
    ensures
        r@ == fg_spec("14"@, bold_spec(s@)),
{
    format!("{}", s.bold().fg::<UserBrightCyan>())
}

/// Relies on std's `Debug` for `str`: the quoted, escaped form of `s`, which
/// depends on the characters of `s` alone.
#[verifier::external_body]
pub(crate) fn debug_quoted(s: &str) -> (r: String)
    ensures
        r@ == debug_str(s@),
{
    format!("{:?}", s)
}

} // verus!
