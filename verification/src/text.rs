//! Character-level scanning shared by the statistics engine and the
//! line-number annotator: whitespace classification, line and word counting,
//! and decimal rendering of line numbers and counters.

use vstd::prelude::*;
use vstd::std_specs::iter::IteratorSpec;
use vstd::string::StringExecFns;

verus! {

/// The characters with the Unicode `White_Space` property, which is what
/// separates words when counting them.
pub open spec fn is_doc_whitespace(c: char) -> bool {
    let u = c as u32;
    u == 0x09 || u == 0x0A || u == 0x0B || u == 0x0C || u == 0x0D || u == 0x20 || u == 0x85
        || u == 0xA0 || u == 0x1680 || (0x2000 <= u && u <= 0x200A) || u == 0x2028 || u == 0x2029
        || u == 0x202F || u == 0x205F || u == 0x3000
}

/// Runtime test for [`is_doc_whitespace`].
pub fn is_whitespace_char(c: char) -> (r: bool)
    ensures
        r == is_doc_whitespace(c),
{
    let u = c as u32;
    u == 0x09 || u == 0x0A || u == 0x0B || u == 0x0C || u == 0x0D || u == 0x20 || u == 0x85
        || u == 0xA0 || u == 0x1680 || (0x2000 <= u && u <= 0x200A) || u == 0x2028 || u == 0x2029
        || u == 0x202F || u == 0x205F || u == 0x3000
}

/// The characters of a document, collected for index-based scanning.
pub fn chars_of(s: &str) -> (r: Vec<char>)
    ensures
        r@ == s@,
{
    let mut v: Vec<char> = Vec::new();
    for c in it: s.chars()
        invariant
            it.seq() == s@,
            v@ =~= it.seq().take(it.index() as int),
    {
        v.push(c);
    }
    proof {
        assert(v@ =~= s@);
    }
    v
}

/// The decimal digit `d` as a character; meaningful for `d < 10`.
pub open spec fn digit_char(d: nat) -> char {
    if d == 0 {
        '0'
    } else if d == 1 {
        '1'
    } else if d == 2 {
        '2'
    } else if d == 3 {
        '3'
    } else if d == 4 {
        '4'
    } else if d == 5 {
        '5'
    } else if d == 6 {
        '6'
    } else if d == 7 {
        '7'
    } else if d == 8 {
        '8'
    } else {
        '9'
    }
}

/// The decimal representation of `n`, most significant digit first; the same
/// sequence of characters that formatting `n` produces.
pub open spec fn spec_decimal(n: nat) -> Seq<char>
    decreases n,
{
    if n < 10 {
        seq![digit_char(n)]
    } else {
        spec_decimal(n / 10).push(digit_char(n % 10))
    }
}

/// A decimal representation is never longer than the number itself (for
/// positive numbers), so digit widths always fit in a machine word.
pub proof fn lemma_decimal_len_le(n: nat)
    requires
        n >= 1,
    ensures
        spec_decimal(n).len() <= n,
    decreases n,
{
    if n >= 10 {
        assert(1 <= n / 10 && n / 10 <= n - 1) by (nonlinear_arith)
            requires
                n >= 10,
        ;
        lemma_decimal_len_le(n / 10);
    }
}

/// Widths of decimal representations grow with the number: the width of
/// line `i`'s number never exceeds the width computed from the total line
/// count `n` when `i <= n`.
pub proof fn lemma_decimal_len_monotonic(m: nat, n: nat)
    requires
        m <= n,
    ensures
        spec_decimal(m).len() <= spec_decimal(n).len(),
    decreases n,
{
    if m >= 10 {
        assert(m / 10 <= n / 10) by (nonlinear_arith)
            requires
                m <= n,
        ;
        lemma_decimal_len_monotonic(m / 10, n / 10);
    } else if n >= 10 {
        assert(spec_decimal(m).len() == 1);
        assert(spec_decimal(n).len() == spec_decimal(n / 10).len() + 1);
    }
}

/// The number of decimal digits of `n`: the width of the line-number column
/// for an `n`-line document.
pub fn decimal_width(n: usize) -> (w: usize)
    ensures
        w as nat == spec_decimal(n as nat).len(),
        1 <= w,
{
    let mut m: usize = n;
    let mut w: usize = 1;
    while m >= 10
        invariant
            1 <= w,
            m <= n,
            spec_decimal(n as nat).len() == (w - 1) + spec_decimal(m as nat).len(),
        decreases m,
    {
        proof {
            assert(1 <= m / 10 && m / 10 < m) by (nonlinear_arith)
                requires
                    m >= 10,
            ;
            lemma_decimal_len_le(n as nat);
            assert(spec_decimal(m as nat) == spec_decimal((m / 10) as nat).push(
                digit_char((m % 10) as nat),
            ));
            assert(spec_decimal((m / 10) as nat).len() >= 1);
        }
        m = m / 10;
        w = w + 1;
    }
    proof {
        assert(spec_decimal(m as nat).len() == 1);
    }
    w
}

/// The index of the first newline in `s`, or `s.len()` if there is none.
pub open spec fn first_nl(s: Seq<char>) -> nat
    decreases s.len(),
{
    if s.len() == 0 {
        0
    } else if s[0] == '\n' {
        0
    } else {
        1 + first_nl(s.drop_first())
    }
}

/// `first_nl` is what a forward scan finds: no newline before it, and a
/// newline (or the end of the text) at it.
pub proof fn lemma_first_nl(s: Seq<char>, i: int)
    requires
        0 <= i <= s.len(),
        forall|k: int| 0 <= k < i ==> s[k] != '\n',
        i < s.len() ==> s[i] == '\n',
    ensures
        first_nl(s) == i,
    decreases i,
{
    if s.len() == 0 {
    } else if s[0] == '\n' {
    } else {
        assert(i > 0);
        lemma_first_nl(s.drop_first(), i - 1);
    }
}

/// The number of line-terminator-delimited segments of `s`, as an iterator
/// over lines yields them: a trailing newline does not produce an extra
/// empty segment.
pub open spec fn spec_line_count(s: Seq<char>) -> nat
    decreases s.len(),
{
    if s.len() == 0 {
        0
    } else if first_nl(s) < s.len() {
        1 + spec_line_count(s.skip(first_nl(s) as int + 1))
    } else {
        1
    }
}

/// Scan forward from `from` to the next newline; returns its index, or the
/// length of the text when no newline remains.
pub fn find_newline(chars: &Vec<char>, from: usize) -> (i: usize)
    requires
        from <= chars@.len(),
    ensures
        from <= i <= chars@.len(),
        forall|k: int| from <= k < i ==> chars@[k] != '\n',
        i < chars@.len() ==> chars@[i as int] == '\n',
{
    let mut i: usize = from;
    while i < chars.len()
        invariant
            from <= i <= chars@.len(),
            forall|k: int| from <= k < i ==> chars@[k] != '\n',
        decreases chars@.len() - i,
    {
        if chars[i] == '\n' {
            return i;
        }
        i = i + 1;
    }
    i
}

/// Count the lines of the document, as [`spec_line_count`] defines them.
pub fn count_lines(chars: &Vec<char>) -> (n: usize)
    ensures
        n as nat == spec_line_count(chars@),
{
    let mut pos: usize = 0;
    let mut n: usize = 0;
    proof {
        assert(chars@.skip(0) =~= chars@);
    }
    while pos < chars.len()
        invariant
            pos <= chars@.len(),
            n <= pos,
            spec_line_count(chars@) == n + spec_line_count(chars@.skip(pos as int)),
        decreases chars@.len() - pos,
    {
        let nl = find_newline(chars, pos);
        let ghost suffix = chars@.skip(pos as int);
        proof {
            lemma_first_nl(suffix, nl - pos);
            assert(suffix.len() > 0);
            if nl < chars@.len() {
                assert(suffix.skip(nl - pos + 1) =~= chars@.skip(nl + 1));
            }
        }
        if nl == chars.len() {
            proof {
                assert(spec_line_count(suffix) == 1);
            }
            n = n + 1;
            pos = chars.len();
        } else {
            n = n + 1;
            pos = nl + 1;
        }
    }
    proof {
        assert(chars@.skip(pos as int) =~= Seq::<char>::empty());
    }
    n
}

/// Whether a maximal whitespace-delimited token starts at position `i`.
pub open spec fn is_word_start(s: Seq<char>, i: int) -> bool {
    &&& 0 <= i < s.len()
    &&& !is_doc_whitespace(s[i])
    &&& (i == 0 || is_doc_whitespace(s[i - 1]))
}

/// The number of word starts among the first `n` positions of `s`.
pub open spec fn count_word_starts(s: Seq<char>, n: int) -> nat
    decreases n,
{
    if n <= 0 {
        0
    } else {
        count_word_starts(s, n - 1) + (if is_word_start(s, n - 1) {
            1nat
        } else {
            0nat
        })
    }
}

/// The number of maximal whitespace-delimited non-empty tokens of `s`.
pub open spec fn spec_word_count(s: Seq<char>) -> nat {
    count_word_starts(s, s.len() as int)
}

/// Count the words of the document, as [`spec_word_count`] defines them.
pub fn count_words(chars: &Vec<char>) -> (n: usize)
    ensures
        n as nat == spec_word_count(chars@),
{
    let mut n: usize = 0;
    let mut i: usize = 0;
    while i < chars.len()
        invariant
            i <= chars@.len(),
            n <= i,
            n as nat == count_word_starts(chars@, i as int),
        decreases chars@.len() - i,
    {
        let ws = is_whitespace_char(chars[i]);
        let starts = !ws && (i == 0 || is_whitespace_char(chars[i - 1]));
        if starts {
            n = n + 1;
        }
        i = i + 1;
    }
    n
}

/// Whether two string slices hold the same characters.
pub(crate) fn str_eq(a: &str, b: &str) -> (r: bool)
    ensures
        r == (a@ == b@),
{
    let va = chars_of(a);
    let vb = chars_of(b);
    if va.len() != vb.len() {
        return false;
    }
    let mut i: usize = 0;
    while i < va.len()
        invariant
            i <= va@.len(),
            va@.len() == vb@.len(),
            va@ == a@,
            vb@ == b@,
            forall|k: int| 0 <= k < i ==> va@[k] == vb@[k],
        decreases va@.len() - i,
    {
        if va[i] != vb[i] {
            return false;
        }
        i = i + 1;
    }
    proof {
        assert(a@ =~= b@);
    }
    true
}

/// `n` space characters.
pub open spec fn spec_spaces(n: nat) -> Seq<char> {
    Seq::new(n, |i: int| ' ')
}

/// Append the single decimal digit `d` to `out`.
fn append_digit(out: &mut String, d: usize)
    requires
        d < 10,
    ensures
        final(out)@ == old(out)@ + seq![digit_char(d as nat)],
{
    proof {
        reveal_strlit("0");
        reveal_strlit("1");
        reveal_strlit("2");
        reveal_strlit("3");
        reveal_strlit("4");
        reveal_strlit("5");
        reveal_strlit("6");
        reveal_strlit("7");
        reveal_strlit("8");
        reveal_strlit("9");
        assert(("0")@ =~= seq![digit_char(0)]);
        assert(("1")@ =~= seq![digit_char(1)]);
        assert(("2")@ =~= seq![digit_char(2)]);
        assert(("3")@ =~= seq![digit_char(3)]);
        assert(("4")@ =~= seq![digit_char(4)]);
        assert(("5")@ =~= seq![digit_char(5)]);
        assert(("6")@ =~= seq![digit_char(6)]);
        assert(("7")@ =~= seq![digit_char(7)]);
        assert(("8")@ =~= seq![digit_char(8)]);
        assert(("9")@ =~= seq![digit_char(9)]);
    }
    if d == 0 {
        out.append("0");
    } else if d == 1 {
        out.append("1");
    } else if d == 2 {
        out.append("2");
    } else if d == 3 {
        out.append("3");
    } else if d == 4 {
        out.append("4");
    } else if d == 5 {
        out.append("5");
    } else if d == 6 {
        out.append("6");
    } else if d == 7 {
        out.append("7");
    } else if d == 8 {
        out.append("8");
    } else {
        out.append("9");
    }
}

/// Append the decimal representation of `n` to `out`.
pub fn append_decimal(out: &mut String, n: usize)
    ensures
        final(out)@ == old(out)@ + spec_decimal(n as nat),
    decreases n,
{
    if n >= 10 {
        append_decimal(out, n / 10);
        proof {
            assert(n / 10 < n) by (nonlinear_arith)
                requires
                    n >= 10,
            ;
        }
        append_digit(out, n % 10);
        proof {
            assert(old(out)@ + spec_decimal((n / 10) as nat) + seq![
                digit_char((n % 10) as nat),
            ] =~= old(out)@ + spec_decimal(n as nat));
        }
    } else {
        append_digit(out, n);
    }
}

/// Append `count` spaces to `out`.
pub fn append_spaces(out: &mut String, count: usize)
    ensures
        final(out)@ == old(out)@ + spec_spaces(count as nat),
{
    let mut i: usize = 0;
    proof {
        assert(old(out)@ + spec_spaces(0) =~= old(out)@);
    }
    while i < count
        invariant
            i <= count,
            out@ == old(out)@ + spec_spaces(i as nat),
        decreases count - i,
    {
        out.append(" ");
        i = i + 1;
        proof {
            reveal_strlit(" ");
            assert((" ")@.len() == 1 && (" ")@[0] == ' ');
            assert(old(out)@ + spec_spaces((i - 1) as nat) + (" ")@ =~= old(out)@ + spec_spaces(
                i as nat,
            ));
        }
    }
}

/// The prefix written before line `n` when the line-number column is `width`
/// characters wide: the decimal line number right-aligned to `width` with
/// spaces, then a space, the separator glyph and another space.
pub open spec fn spec_line_prefix(n: nat, width: nat) -> Seq<char> {
    let digits = spec_decimal(n);
    let pad = if width > digits.len() {
        (width - digits.len()) as nat
    } else {
        0nat
    };
    spec_spaces(pad) + digits + seq![' ', '│', ' ']
}

/// Append the line-number prefix for line `n`, right-aligned to `width`.
pub fn append_line_prefix(out: &mut String, n: usize, width: usize)
    ensures
        final(out)@ == old(out)@ + spec_line_prefix(n as nat, width as nat),
{
    let digits = decimal_width(n);
    let pad = if width > digits {
        width - digits
    } else {
        0
    };
    append_spaces(out, pad);
    append_decimal(out, n);
    out.append(" │ ");
    proof {
        reveal_strlit(" │ ");
        assert((" │ ")@ =~= seq![' ', '│', ' ']);
        assert(old(out)@ + spec_spaces(pad as nat) + spec_decimal(n as nat) + (" │ ")@ =~= old(
            out,
        )@ + spec_line_prefix(n as nat, width as nat));
    }
}

} // verus!
