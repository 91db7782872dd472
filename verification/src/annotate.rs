//! The line-number transform applied to raw markdown text before rendering.
//!
//! The text is split into lines, the column width is the decimal digit width
//! of the total line count, and every line is rebuilt with its 1-based number
//! right-aligned to that width, a separator glyph and a space in front of the
//! original content, rejoined with newlines.

use crate::text::{
    append_line_prefix, chars_of, count_lines, decimal_width, first_nl, lemma_decimal_len_monotonic,
    lemma_first_nl, spec_decimal, spec_line_count, spec_line_prefix, spec_spaces,
};
use vstd::prelude::*;
use vstd::string::StrSliceExecFns;
use vstd::string::StringExecFns;

verus! {

/// The text `s` rebuilt with numbered lines: each line (as a line iterator
/// yields it, with the line terminator and a carriage return before it
/// removed) is prefixed with [`spec_line_prefix`] for its 1-based number
/// (starting at `next`), and the lines are rejoined with single newlines.
pub open spec fn spec_number_lines(s: Seq<char>, width: nat, next: nat) -> Seq<char>
    decreases s.len(),
{
    if s.len() == 0 {
        Seq::empty()
    } else {
        let nl = first_nl(s) as int;
        if 0 <= nl < s.len() {
            let content = if nl > 0 && s[nl - 1] == '\r' {
                s.subrange(0, nl - 1)
            } else {
                s.subrange(0, nl)
            };
            let rest = s.skip(nl + 1);
            if rest.len() == 0 {
                spec_line_prefix(next, width) + content
            } else {
                spec_line_prefix(next, width) + content + seq!['\n'] + spec_number_lines(
                    rest,
                    width,
                    next + 1,
                )
            }
        } else {
            spec_line_prefix(next, width) + s
        }
    }
}

/// The annotated form of a document: lines numbered from 1, the column width
/// taken from the decimal representation of the total line count. An empty
/// document stays empty.
pub open spec fn spec_annotated(s: Seq<char>) -> Seq<char> {
    spec_number_lines(s, spec_decimal(spec_line_count(s)).len(), 1)
}

/// Rebuild the document with line-number prefixes, as [`spec_annotated`]
/// describes.
#[verifier::rlimit(100)]
pub fn annotate_line_numbers(input: &str) -> (out: String)
    ensures
        out@ == spec_annotated(input@),
{
    let chars = chars_of(input);
    let total = count_lines(&chars);
    let width = decimal_width(total);
    let mut out = String::new();
    let mut pos: usize = 0;
    let mut line: usize = 0;
    proof {
        assert(chars@.skip(0) =~= chars@);
        assert(Seq::<char>::empty() + spec_number_lines(chars@, width as nat, 1)
            =~= spec_number_lines(chars@, width as nat, 1));
    }
    while pos < chars.len()
        invariant
            pos <= chars@.len(),
            line <= pos,
            chars@ == input@,
            spec_number_lines(chars@, width as nat, 1) == out@ + spec_number_lines(
                chars@.skip(pos as int),
                width as nat,
                line as nat + 1,
            ),
        decreases chars@.len() - pos,
    {
        let nl = crate::text::find_newline(&chars, pos);
        let ghost suffix = chars@.skip(pos as int);
        proof {
            assert forall|k: int| 0 <= k < nl - pos implies suffix[k] != '\n' by {
                assert(suffix[k] == chars@[pos + k]);
            }
            lemma_first_nl(suffix, nl - pos);
        }
        let terminated = nl < chars.len();
        let content_end = if terminated && nl > pos && chars[nl - 1] == '\r' {
            nl - 1
        } else {
            nl
        };
        append_line_prefix(&mut out, line + 1, width);
        let segment = input.substring_char(pos, content_end);
        out.append(segment);
        if terminated && nl + 1 < chars.len() {
            out.append("\n");
        }
        proof {
            reveal_strlit("\n");
            let w = width as nat;
            let next = line as nat + 1;
            assert(suffix.len() > 0);
            assert(first_nl(suffix) == nl - pos);
            if terminated {
                let rest = suffix.skip(nl - pos + 1);
                assert(rest =~= chars@.skip(nl + 1));
                if nl > pos && chars@[nl - 1] == '\r' {
                    assert(suffix[nl - pos - 1] == chars@[nl - 1]);
                    assert(suffix.subrange(0, nl - pos - 1) =~= input@.subrange(
                        pos as int,
                        content_end as int,
                    ));
                } else {
                    if nl - pos > 0 {
                        assert(suffix[nl - pos - 1] == chars@[nl - 1]);
                    }
                    assert(suffix.subrange(0, nl - pos) =~= input@.subrange(
                        pos as int,
                        content_end as int,
                    ));
                }
                if nl + 1 < chars@.len() {
                    assert(rest.len() > 0);
                    assert(spec_number_lines(suffix, w, next) =~= spec_line_prefix(next, w)
                        + segment@ + ("\n")@ + spec_number_lines(rest, w, next + 1));
                } else {
                    assert(rest.len() == 0);
                    assert(spec_number_lines(rest, w, next + 1) =~= Seq::<char>::empty());
                    assert(spec_number_lines(suffix, w, next) =~= spec_line_prefix(next, w)
                        + segment@);
                }
            } else {
                assert(first_nl(suffix) == suffix.len());
                assert(suffix.subrange(0, suffix.len() as int) =~= suffix);
                assert(segment@ =~= suffix);
                assert(spec_number_lines(suffix, w, next) =~= spec_line_prefix(next, w)
                    + segment@);
                assert(chars@.skip(chars@.len() as int) =~= Seq::<char>::empty());
                assert(spec_number_lines(chars@.skip(chars@.len() as int), w, next + 1)
                    =~= Seq::<char>::empty());
            }
        }
        line = line + 1;
        if terminated {
            pos = nl + 1;
        } else {
            pos = chars.len();
        }
    }
    proof {
        assert(chars@.skip(pos as int) =~= Seq::<char>::empty());
        assert(out@ + Seq::<char>::empty() =~= out@);
        assert(out@ =~= spec_annotated(input@));
    }
    out
}

/// The line-number column of an `n`-line document is exactly as wide as the
/// decimal representation of `n`, and the prefix of every line `i` with
/// `1 <= i <= n` is right-aligned to that width: padding spaces, then the
/// decimal line number, then a space, the separator glyph and a space.
pub proof fn lemma_prefix_right_aligned(s: Seq<char>, i: nat)
    requires
        1 <= i <= spec_line_count(s),
    ensures
        spec_decimal(i).len() <= spec_decimal(spec_line_count(s)).len(),
        spec_line_prefix(i, spec_decimal(spec_line_count(s)).len()) == spec_spaces(
            (spec_decimal(spec_line_count(s)).len() - spec_decimal(i).len()) as nat,
        ) + spec_decimal(i) + seq![' ', '│', ' '],
        spec_line_prefix(i, spec_decimal(spec_line_count(s)).len()).len() == spec_decimal(
            spec_line_count(s),
        ).len() + 3,
{
    lemma_decimal_len_monotonic(i, spec_line_count(s));
}

} // verus!
