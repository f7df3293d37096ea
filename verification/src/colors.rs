//! ANSI terminal styling: each style wraps a string in fixed escape
//! sequences, so output content can be stated (and stripped) exactly.

use vstd::prelude::*;

verus! {

/// `s` wrapped in the cyan foreground escape sequence.
pub open spec fn cyan_of(s: Seq<char>) -> Seq<char> {
    "\u{1b}[36m"@ + s + "\u{1b}[0m"@
}

/// `s` wrapped in the red foreground escape sequence.
pub open spec fn red_of(s: Seq<char>) -> Seq<char> {
    "\u{1b}[31m"@ + s + "\u{1b}[0m"@
}

/// `s` wrapped in the yellow foreground escape sequence.
pub open spec fn yellow_of(s: Seq<char>) -> Seq<char> {
    "\u{1b}[33m"@ + s + "\u{1b}[0m"@
}

/// `s` wrapped in the italic and bold escape sequences.
pub open spec fn italic_bold_of(s: Seq<char>) -> Seq<char> {
    "\u{1b}[3m\u{1b}[1m"@ + s + "\u{1b}[0m"@
}

/// Styles `s` cyan.
pub fn cyan(s: &str) -> (r: String)
    ensures
        r@ == cyan_of(s@),
{
    String::from_str("\u{1b}[36m").concat(s).concat("\u{1b}[0m")
}

/// Styles `s` red.
pub fn red(s: &str) -> (r: String)
    ensures
        r@ == red_of(s@),
{
    String::from_str("\u{1b}[31m").concat(s).concat("\u{1b}[0m")
}

/// Styles `s` yellow.
pub fn yellow(s: &str) -> (r: String)
    ensures
        r@ == yellow_of(s@),
{
    String::from_str("\u{1b}[33m").concat(s).concat("\u{1b}[0m")
}

/// Styles `s` italic and bold.
pub fn italic_bold(s: &str) -> (r: String)
    ensures
        r@ == italic_bold_of(s@),
{
    String::from_str("\u{1b}[3m\u{1b}[1m").concat(s).concat("\u{1b}[0m")
}

} // verus!
