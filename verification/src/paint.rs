use crate::color::UsageColor;
use crate::textfmt::spec_no_escape;
use vstd::prelude::*;

verus! {

/// Relies on colored::Colorize::color (and Display on ColoredString): styles
/// the text with the given ANSI color. For text free of the escape character
/// the styled form keeps it intact and contiguous between the escape prefix
/// and suffix the terminal layer chose (either may be empty, depending on
/// colored's terminal and environment detection). Text containing escapes is
/// re-styled around each reset sequence, so nothing is promised of it.
#[verifier::external_body]
pub fn painted(s: &str, c: UsageColor) -> (r: String)
    ensures
        spec_no_escape(s@) ==> exists|pre: Seq<char>, suf: Seq<char>| r@ == pre + s@ + suf,
{
    let col = match c {
        UsageColor::White => colored::Color::White,
        UsageColor::Green => colored::Color::Green,
        UsageColor::Yellow => colored::Color::Yellow,
        UsageColor::Red => colored::Color::Red,
    };
    colored::Colorize::color(s, col).to_string()
}

/// Relies on colored::Colorize::blue and colored::Colorize::bold: a blue,
/// bold styling of the text. For text free of the escape character the input
/// stays intact and contiguous between the chosen escape prefix and suffix
/// (either may be empty); text containing escapes is re-styled around each
/// reset sequence, so nothing is promised of it.
#[verifier::external_body]
pub fn blue_bold(s: &str) -> (r: String)
    ensures
        spec_no_escape(s@) ==> exists|pre: Seq<char>, suf: Seq<char>| r@ == pre + s@ + suf,
{
    colored::Colorize::bold(colored::Colorize::blue(s)).to_string()
}

/// Relies on colored::Colorize::cyan and colored::Colorize::bold: a cyan,
/// bold styling of the text. For text free of the escape character the input
/// stays intact and contiguous between the chosen escape prefix and suffix
/// (either may be empty); text containing escapes is re-styled around each
/// reset sequence, so nothing is promised of it.
#[verifier::external_body]
pub fn cyan_bold(s: &str) -> (r: String)
    ensures
        spec_no_escape(s@) ==> exists|pre: Seq<char>, suf: Seq<char>| r@ == pre + s@ + suf,
{
    colored::Colorize::bold(colored::Colorize::cyan(s)).to_string()
}

/// Relies on colored::Colorize::bright_black: a dim styling of the text. For
/// text free of the escape character the input stays intact and contiguous
/// between the chosen escape prefix and suffix (either may be empty); text
/// containing escapes is re-styled around each reset sequence, so nothing is
/// promised of it.
#[verifier::external_body]
pub fn bright_black(s: &str) -> (r: String)
    ensures
        spec_no_escape(s@) ==> exists|pre: Seq<char>, suf: Seq<char>| r@ == pre + s@ + suf,
{
    colored::Colorize::bright_black(s).to_string()
}

} // verus!
