use vstd::prelude::*;
use vstd::string::StrSliceExecFns;
use vstd::string::StringExecFns;

verus! {

/// Text free of the ANSI escape character. Only such text is guaranteed to
/// survive terminal styling intact.
pub open spec fn spec_no_escape(s: Seq<char>) -> bool {
    forall|i: int| 0 <= i < s.len() ==> s[i] != '\x1b'
}

/// Decimal digit runs never contain the escape character.
pub proof fn lemma_dec_no_escape(n: nat)
    ensures
        spec_no_escape(spec_dec(n)),
    decreases n,
{
    if n < 10 {
    } else {
        lemma_dec_no_escape(n / 10);
        assert forall|i: int| 0 <= i < spec_dec(n).len() implies spec_dec(n)[i] != '\x1b' by {
            if i < spec_dec(n / 10).len() {
                assert(spec_dec(n)[i] == spec_dec(n / 10)[i]);
            } else {
                assert(spec_dec(n)[i] == spec_digit((n % 10) as int));
            }
        }
    }
}

/// One-decimal renderings never contain the escape character.
pub proof fn lemma_tenths_no_escape(t: nat)
    ensures
        spec_no_escape(spec_tenths(t)),
{
    lemma_dec_no_escape(t / 10);
    assert forall|i: int| 0 <= i < spec_tenths(t).len() implies spec_tenths(t)[i] != '\x1b' by {
        let d = spec_dec(t / 10);
        if i < d.len() {
            assert(spec_tenths(t)[i] == d[i]);
        } else if i == d.len() {
            assert(spec_tenths(t)[i] == '.');
        } else {
            assert(spec_tenths(t)[i] == spec_digit((t % 10) as int));
        }
    }
}

/// Escape-freedom is preserved by concatenation.
pub proof fn lemma_no_escape_concat(a: Seq<char>, b: Seq<char>)
    requires
        spec_no_escape(a),
        spec_no_escape(b),
    ensures
        spec_no_escape(a + b),
{
    assert forall|i: int| 0 <= i < (a + b).len() implies (a + b)[i] != '\x1b' by {
        if i < a.len() {
            assert((a + b)[i] == a[i]);
        } else {
            assert((a + b)[i] == b[i - a.len()]);
        }
    }
}

/// The decimal digit character for a value below ten.
pub open spec fn spec_digit(d: int) -> char {
    if d == 0 {
        '0'
    } else if d == 1 {
        '1'
    } else if d == 2 {
        '2'
    } else if d == 3 {
        '3'
    } else if d == 4 {
        '4'
    } else if d == 5 {
        '5'
    } else if d == 6 {
        '6'
    } else if d == 7 {
        '7'
    } else if d == 8 {
        '8'
    } else {
        '9'
    }
}

/// Decimal digit sequence of a natural number, most significant digit first.
pub open spec fn spec_dec(n: nat) -> Seq<char>
    decreases n,
{
    if n < 10 {
        seq![spec_digit(n as int)]
    } else {
        spec_dec(n / 10) + seq![spec_digit((n % 10) as int)]
    }
}

pub fn digit_char(d: u64) -> (r: &'static str)
    requires
        d < 10,
    ensures
        r@ == seq![spec_digit(d as int)],
{
    proof {
        reveal_strlit("0");
        reveal_strlit("1");
        reveal_strlit("2");
        reveal_strlit("3");
        reveal_strlit("4");
        reveal_strlit("5");
        reveal_strlit("6");
        reveal_strlit("7");
        reveal_strlit("8");
        reveal_strlit("9");
    }
    let r: &'static str = if d == 0 {
        "0"
    } else if d == 1 {
        "1"
    } else if d == 2 {
        "2"
    } else if d == 3 {
        "3"
    } else if d == 4 {
        "4"
    } else if d == 5 {
        "5"
    } else if d == 6 {
        "6"
    } else if d == 7 {
        "7"
    } else if d == 8 {
        "8"
    } else {
        "9"
    };
    proof {
        assert(r@ =~= seq![spec_digit(d as int)]);
    }
    r
}

/// Renders a natural number in decimal, without padding or sign.
pub fn fmt_u64(n: u64) -> (r: String)
    ensures
        r@ == spec_dec(n as nat),
    decreases n,
{
    if n < 10 {
        digit_char(n).to_owned()
    } else {
        let mut s = fmt_u64(n / 10);
        s.append(digit_char(n % 10));
        proof {
            assert(s@ =~= spec_dec(n as nat));
        }
        s
    }
}

/// A quantity held in tenths, rendered with one decimal place: "12.3".
pub open spec fn spec_tenths(t: nat) -> Seq<char> {
    spec_dec(t / 10) + seq!['.'] + seq![spec_digit((t % 10) as int)]
}

pub fn fmt_tenths(t: u64) -> (r: String)
    ensures
        r@ == spec_tenths(t as nat),
{
    proof {
        reveal_strlit(".");
    }
    let mut s = fmt_u64(t / 10);
    s.append(".");
    s.append(digit_char(t % 10));
    proof {
        assert(s@ =~= spec_tenths(t as nat));
    }
    s
}

/// A quantity held in hundredths, rendered with two decimal places: "1.23".
pub open spec fn spec_hundredths(h: nat) -> Seq<char> {
    spec_dec(h / 100) + seq!['.'] + seq![
        spec_digit(((h / 10) % 10) as int),
        spec_digit((h % 10) as int),
    ]
}

pub fn fmt_hundredths(h: u64) -> (r: String)
    ensures
        r@ == spec_hundredths(h as nat),
{
    proof {
        reveal_strlit(".");
    }
    let mut s = fmt_u64(h / 100);
    s.append(".");
    s.append(digit_char((h / 10) % 10));
    s.append(digit_char(h % 10));
    proof {
        assert(s@ =~= spec_hundredths(h as nat));
    }
    s
}

/// `n` copies of one character.
pub open spec fn spec_repeat(c: char, n: nat) -> Seq<char> {
    Seq::new(n, |i: int| c)
}

/// `n` copies of the single character of `piece`.
pub fn repeated(piece: &str, n: usize) -> (r: String)
    requires
        piece@.len() == 1,
    ensures
        r@ == spec_repeat(piece@[0], n as nat),
{
    let mut r = String::new();
    let mut i: usize = 0;
    while i < n
        invariant
            i <= n,
            piece@.len() == 1,
            r@ == spec_repeat(piece@[0], i as nat),
        decreases n - i,
    {
        r.append(piece);
        i = i + 1;
        proof {
            assert(r@ =~= spec_repeat(piece@[0], i as nat));
        }
    }
    r
}

pub fn spaces(n: usize) -> (r: String)
    ensures
        r@ == spec_repeat(' ', n as nat),
{
    proof {
        reveal_strlit(" ");
    }
    let one = " ";
    proof {
        assert(one@ =~= seq![' ']);
    }
    repeated(one, n)
}

/// Right-alignment: prepend spaces until the text is `width` characters wide;
/// text already that wide is unchanged.
pub open spec fn spec_pad_left(s: Seq<char>, width: nat) -> Seq<char> {
    if s.len() >= width {
        s
    } else {
        spec_repeat(' ', (width - s.len()) as nat) + s
    }
}

pub fn pad_left(s: &str, width: usize) -> (r: String)
    ensures
        r@ == spec_pad_left(s@, width as nat),
{
    let n = s.unicode_len();
    if n >= width {
        s.to_owned()
    } else {
        let mut r = spaces(width - n);
        r.append(s);
        r
    }
}

/// Left-alignment: append spaces until the text is `width` characters wide.
pub open spec fn spec_pad_right(s: Seq<char>, width: nat) -> Seq<char> {
    if s.len() >= width {
        s
    } else {
        s + spec_repeat(' ', (width - s.len()) as nat)
    }
}

pub fn pad_right(s: &str, width: usize) -> (r: String)
    ensures
        r@ == spec_pad_right(s@, width as nat),
{
    let n = s.unicode_len();
    if n >= width {
        s.to_owned()
    } else {
        let mut r = s.to_owned();
        r.append(spaces(width - n).as_str());
        r
    }
}

/// The first `max` characters of the text; shorter text is unchanged.
pub open spec fn spec_truncate(s: Seq<char>, max: nat) -> Seq<char> {
    if s.len() <= max {
        s
    } else {
        s.subrange(0, max as int)
    }
}

pub fn truncate_chars(s: &str, max: usize) -> (r: String)
    ensures
        r@ == spec_truncate(s@, max as nat),
{
    let n = s.unicode_len();
    if n <= max {
        s.to_owned()
    } else {
        s.substring_char(0, max).to_owned()
    }
}

} // verus!
