//! Terminal styles. Each function returns its text with the escape sequences that
//! switch a style on before it and off after it.

use owo_colors::OwoColorize;
use vstd::prelude::*;

verus! {

/// `text` in bold.
pub open spec fn bold_text(text: Seq<char>) -> Seq<char> {
    "\x1b[1m"@ + text + "\x1b[0m"@
}

/// `text` dimmed.
pub open spec fn dimmed_text(text: Seq<char>) -> Seq<char> {
    "\x1b[2m"@ + text + "\x1b[0m"@
}

/// `text` in red.
pub open spec fn red_text(text: Seq<char>) -> Seq<char> {
    "\x1b[31m"@ + text + "\x1b[39m"@
}

/// `text` in yellow.
pub open spec fn yellow_text(text: Seq<char>) -> Seq<char> {
    "\x1b[33m"@ + text + "\x1b[39m"@
}

/// Trusted: `owo_colors::OwoColorize::bold`. Displayed, the value it returns is the
/// text between the sequences "bold on" and "reset".
#[verifier::external_body]
pub(crate) fn bold(text: &str) -> (r: String)
    ensures
        r@ == bold_text(text@),
{
    format!("{}", text.bold())
}

/// Trusted: `owo_colors::OwoColorize::dimmed`. Displayed, the value it returns is the
/// text between the sequences "faint on" and "reset".
#[verifier::external_body]
pub(crate) fn dimmed(text: &str) -> (r: String)
    ensures
        r@ == dimmed_text(text@),
{
    format!("{}", text.dimmed())
}

/// Trusted: `owo_colors::OwoColorize::red`. Displayed, the value it returns is the
/// text between the sequences "red foreground" and "default foreground".
#[verifier::external_body]
pub(crate) fn red(text: &str) -> (r: String)
    ensures
        r@ == red_text(text@),
{
    format!("{}", text.red())
}

/// Trusted: `owo_colors::OwoColorize::yellow`. Displayed, the value it returns is the
/// text between the sequences "yellow foreground" and "default foreground".
#[verifier::external_body]
pub(crate) fn yellow(text: &str) -> (r: String)
    ensures
        r@ == yellow_text(text@),
{
    format!("{}", text.yellow())
}

} // verus!
