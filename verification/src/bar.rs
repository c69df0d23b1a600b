use crate::color::get_usage_color;
use crate::paint::painted;
use crate::textfmt::fmt_tenths;
use crate::textfmt::pad_left;
use crate::textfmt::repeated;
use crate::textfmt::spec_no_escape;
use crate::textfmt::spec_pad_left;
use crate::textfmt::spec_repeat;
use crate::textfmt::spec_tenths;
use vstd::prelude::*;
use vstd::string::StringExecFns;

verus! {

/// The bar is always 20 cells wide.
pub const BAR_WIDTH: usize = 20;

/// Filled cells: floor(value / 100 * 20) with the value in tenths of a
/// percent, clamped to the bar width so out-of-range values stay displayable.
pub open spec fn spec_bar_fill(t: nat) -> nat {
    if t / 50 > 20 {
        20
    } else {
        t / 50
    }
}

pub fn bar_fill(value: u32) -> (r: usize)
    ensures
        r == spec_bar_fill(value as nat),
        r <= 20,
{
    let f: u32 = value / 50;
    if f > 20 {
        20
    } else {
        f as usize
    }
}

/// The glyph run of a bar: filled cells as '#', the rest as '-'.
pub open spec fn spec_bar_glyphs(t: nat) -> Seq<char> {
    spec_repeat('#', spec_bar_fill(t)) + spec_repeat('-', (20 - spec_bar_fill(t)) as nat)
}

pub fn bar_glyphs(value: u32) -> (r: String)
    ensures
        r@ == spec_bar_glyphs(value as nat),
{
    proof {
        reveal_strlit("#");
        reveal_strlit("-");
    }
    let hash = "#";
    let dash = "-";
    proof {
        assert(hash@ =~= seq!['#']);
        assert(dash@ =~= seq!['-']);
    }
    let fill = bar_fill(value);
    let mut s = repeated(hash, fill);
    s.append(repeated(dash, BAR_WIDTH - fill).as_str());
    s
}

/// Glyph runs hold only '#' and '-', never the escape character, so styling
/// keeps them intact.
pub proof fn lemma_bar_glyphs_no_escape(t: nat)
    ensures
        spec_no_escape(spec_bar_glyphs(t)),
{
    assert forall|i: int|
        0 <= i < spec_bar_glyphs(t).len() implies spec_bar_glyphs(t)[i] != '\x1b' by {
        let f = spec_bar_fill(t);
        if i < f {
            assert(spec_bar_glyphs(t)[i] == '#');
        } else {
            assert(spec_bar_glyphs(t)[i] == '-');
        }
    }
}

/// Plain rendering, used when colors are off: "[ XX.X%]" with the percentage
/// right-aligned to one decimal inside the brackets, and no bar glyphs.
pub open spec fn spec_plain_bar(t: nat) -> Seq<char> {
    seq!['['] + spec_pad_left(spec_tenths(t), 6) + seq!['%', ']']
}

pub fn plain_bar(value: u32) -> (r: String)
    ensures
        r@ == spec_plain_bar(value as nat),
{
    proof {
        reveal_strlit("[");
        reveal_strlit("%]");
    }
    let mut s = "[".to_owned();
    s.append(pad_left(fmt_tenths(value as u64).as_str(), 6).as_str());
    s.append("%]");
    proof {
        assert(s@ =~= spec_plain_bar(value as nat));
    }
    s
}

/// Colored rendering: the exact glyph run of the value inside whatever
/// styling the terminal layer chose, framed in brackets, then the
/// right-aligned percentage.
pub open spec fn spec_colored_bar(t: nat, pre: Seq<char>, suf: Seq<char>) -> Seq<char> {
    seq!['['] + pre + spec_bar_glyphs(t) + suf + seq![']', ' '] + spec_pad_left(spec_tenths(t), 6)
        + seq!['%']
}

/// The visual bar for a utilization value. With colors off the result is
/// exactly the plain form; with colors on it holds the exact glyph run of
/// the value inside the styling the terminal layer produced, then the
/// right-aligned percentage.
pub fn create_progress_bar(value: u32, warning: u32, critical: u32, use_colors: bool) -> (r:
    String)
    ensures
        !use_colors ==> r@ == spec_plain_bar(value as nat),
        use_colors ==> exists|pre: Seq<char>, suf: Seq<char>|
            r@ == spec_colored_bar(value as nat, pre, suf),
{
    if !use_colors {
        plain_bar(value)
    } else {
        let color = get_usage_color(value, warning, critical, true);
        let glyph_run = bar_glyphs(value);
        proof {
            lemma_bar_glyphs_no_escape(value as nat);
        }
        let glyphs = painted(glyph_run.as_str(), color);
        proof {
            reveal_strlit("[");
            reveal_strlit("] ");
            reveal_strlit("%");
        }
        let mut s = "[".to_owned();
        s.append(glyphs.as_str());
        s.append("] ");
        s.append(pad_left(fmt_tenths(value as u64).as_str(), 6).as_str());
        s.append("%");
        proof {
            let (pre, suf) = choose|pre: Seq<char>, suf: Seq<char>|
                glyphs@ == pre + glyph_run@ + suf;
            assert(s@ =~= spec_colored_bar(value as nat, pre, suf));
        }
        s
    }
}

} // verus!
