//! Document statistics and the streaming line-number formatter.

use crate::markdown::{count_events, count_kind, markdown_events, parse_markdown_events, MarkdownEvent};
use crate::text::{
    append_decimal, append_line_prefix, chars_of, count_lines, count_words, decimal_width,
    spec_decimal, spec_line_count, spec_line_prefix, spec_word_count,
};
use vstd::prelude::*;
use vstd::string::StringExecFns;

verus! {

/// Statistics about a markdown document.
#[derive(Debug)]
pub struct DocumentStats {
    /// Total number of characters (UTF-8 byte length, including whitespace).
    pub character_count: usize,
    /// Total number of words.
    pub word_count: usize,
    /// Number of lines.
    pub line_count: usize,
    /// Number of headings.
    pub heading_count: usize,
    /// Number of code blocks.
    pub code_block_count: usize,
    /// Number of links.
    pub link_count: usize,
    /// Number of images.
    pub image_count: usize,
    /// Number of lists.
    pub list_count: usize,
    /// Number of tables.
    pub table_count: usize,
}

/// The statistics that scanning the document text `s` yields: each counter is
/// pinned to the corresponding count of the text or of its structural parse.
pub open spec fn stats_for(s: Seq<char>, stats: DocumentStats) -> bool {
    &&& stats.character_count == vstd::utf8::encode_utf8(s).len() as usize
    &&& stats.word_count as nat == spec_word_count(s)
    &&& stats.line_count as nat == spec_line_count(s)
    &&& stats.heading_count as nat == count_events(markdown_events(s), MarkdownEvent::HeadingStart)
    &&& stats.code_block_count as nat == count_events(
        markdown_events(s),
        MarkdownEvent::CodeBlockStart,
    )
    &&& stats.link_count as nat == count_events(markdown_events(s), MarkdownEvent::LinkStart)
    &&& stats.image_count as nat == count_events(markdown_events(s), MarkdownEvent::ImageStart)
    &&& stats.list_count as nat == count_events(markdown_events(s), MarkdownEvent::ListStart)
    &&& stats.table_count as nat == count_events(markdown_events(s), MarkdownEvent::TableStart)
}

/// Estimated reading time in minutes for a word count: ceiling division by
/// 225 words per minute, zero minutes for an empty document.
pub open spec fn spec_reading_time(words: nat) -> nat {
    (words + 224) / 225
}

impl DocumentStats {
    /// Calculate statistics from markdown content.
    pub fn from_markdown(content: &str) -> (stats: Self)
        ensures
            stats_for(content@, stats),
    {
        let character_count = content.len();
        let chars = chars_of(content);
        let line_count = count_lines(&chars);
        let word_count = count_words(&chars);
        let events = parse_markdown_events(content);
        DocumentStats {
            character_count,
            word_count,
            line_count,
            heading_count: count_kind(&events, MarkdownEvent::HeadingStart),
            code_block_count: count_kind(&events, MarkdownEvent::CodeBlockStart),
            link_count: count_kind(&events, MarkdownEvent::LinkStart),
            image_count: count_kind(&events, MarkdownEvent::ImageStart),
            list_count: count_kind(&events, MarkdownEvent::ListStart),
            table_count: count_kind(&events, MarkdownEvent::TableStart),
        }
    }

    /// Calculate estimated reading time in minutes.
    /// Based on an average reading speed of 225 words per minute.
    pub fn reading_time_minutes(&self) -> (minutes: usize)
        ensures
            minutes as nat == spec_reading_time(self.word_count as nat),
    {
        let words = self.word_count;
        let quotient = words / 225;
        let remainder = words % 225;
        proof {
            vstd::arithmetic::div_mod::lemma_fundamental_div_mod(words as int, 225);
            if remainder == 0 {
                vstd::arithmetic::div_mod::lemma_fundamental_div_mod_converse(
                    words as int + 224,
                    225,
                    quotient as int,
                    224,
                );
            } else {
                vstd::arithmetic::div_mod::lemma_fundamental_div_mod_converse(
                    words as int + 224,
                    225,
                    quotient as int + 1,
                    remainder as int - 1,
                );
                assert(quotient as int <= 225 * (quotient as int)) by (nonlinear_arith);
            }
        }
        if remainder == 0 {
            quotient
        } else {
            quotient + 1
        }
    }
}

/// The fixed-layout text block that displays the statistics: a title line, a
/// separator rule, one "Label: value" line per counter, and a reading-time
/// line with "minute" pluralized except for exactly one minute.
pub open spec fn spec_formatted_stats(stats: DocumentStats) -> Seq<char> {
    let minutes = spec_reading_time(stats.word_count as nat);
    ("Document Statistics:\n")@ + ("───────────────────\n")@ + ("Characters: ")@ + spec_decimal(
        stats.character_count as nat,
    ) + ("\n")@ + ("Words: ")@ + spec_decimal(stats.word_count as nat) + ("\n")@ + ("Lines: ")@
        + spec_decimal(stats.line_count as nat) + ("\n")@ + ("Headings: ")@ + spec_decimal(
        stats.heading_count as nat,
    ) + ("\n")@ + ("Code blocks: ")@ + spec_decimal(stats.code_block_count as nat) + ("\n")@ + (
    "Links: ")@ + spec_decimal(stats.link_count as nat) + ("\n")@ + ("Images: ")@ + spec_decimal(
        stats.image_count as nat,
    ) + ("\n")@ + ("Lists: ")@ + spec_decimal(stats.list_count as nat) + ("\n")@ + ("Tables: ")@
        + spec_decimal(stats.table_count as nat) + ("\n")@ + ("Estimated reading time: ")@
        + spec_decimal(minutes) + (if minutes == 1 {
        (" minute\n")@
    } else {
        (" minutes\n")@
    })
}

impl DocumentStats {
    /// Format statistics for display.
    pub fn format(&self) -> (out: String)
        ensures
            out@ == spec_formatted_stats(*self),
    {
        let mut out = String::new();
        out.append("Document Statistics:\n");
        out.append("───────────────────\n");
        out.append("Characters: ");
        append_decimal(&mut out, self.character_count);
        out.append("\n");
        out.append("Words: ");
        append_decimal(&mut out, self.word_count);
        out.append("\n");
        out.append("Lines: ");
        append_decimal(&mut out, self.line_count);
        out.append("\n");
        out.append("Headings: ");
        append_decimal(&mut out, self.heading_count);
        out.append("\n");
        out.append("Code blocks: ");
        append_decimal(&mut out, self.code_block_count);
        out.append("\n");
        out.append("Links: ");
        append_decimal(&mut out, self.link_count);
        out.append("\n");
        out.append("Images: ");
        append_decimal(&mut out, self.image_count);
        out.append("\n");
        out.append("Lists: ");
        append_decimal(&mut out, self.list_count);
        out.append("\n");
        out.append("Tables: ");
        append_decimal(&mut out, self.table_count);
        out.append("\n");
        out.append("Estimated reading time: ");
        let minutes = self.reading_time_minutes();
        append_decimal(&mut out, minutes);
        if minutes == 1 {
            out.append(" minute\n");
        } else {
            out.append(" minutes\n");
        }
        proof {
            assert(out@ =~= spec_formatted_stats(*self));
        }
        out
    }
}

/// Line number formatter for markdown output: a streaming realization of the
/// line-number transform, writing one prefix per line into a text sink.
pub struct LineNumberFormatter {
    current_line: usize,
    show_line_numbers: bool,
    line_number_width: usize,
}

impl LineNumberFormatter {
    /// The number of prefix writes so far: the 1-based number of the current
    /// line, whether or not its prefix was emitted; 0 before the first write.
    pub closed spec fn spec_current_line(&self) -> nat {
        self.current_line as nat
    }

    /// Whether line numbers are written at all.
    pub closed spec fn spec_enabled(&self) -> bool {
        self.show_line_numbers
    }

    /// The width of the line-number column.
    pub closed spec fn spec_width(&self) -> nat {
        self.line_number_width as nat
    }

    /// Create a new line number formatter. The column width is the decimal
    /// digit width of the document's total line count when line numbers are
    /// enabled, and zero otherwise.
    pub fn new(show_line_numbers: bool, total_lines: usize) -> (formatter: Self)
        ensures
            formatter.spec_current_line() == 0,
            formatter.spec_enabled() == show_line_numbers,
            formatter.spec_width() == if show_line_numbers {
                spec_decimal(total_lines as nat).len()
            } else {
                0nat
            },
    {
        let line_number_width = if show_line_numbers {
            decimal_width(total_lines)
        } else {
            0
        };
        Self { current_line: 0, show_line_numbers, line_number_width }
    }

    /// Write a line number prefix: advance the cursor to the next line and,
    /// only if line numbers are enabled, emit its number right-aligned to the
    /// column width, then the separator glyph between two spaces. The cursor
    /// advances on every call, so [`Self::current_line`] reports the number
    /// of prefix writes whether or not anything was emitted.
    pub fn write_line_number(&mut self, out: &mut String)
        requires
            old(self).spec_current_line() < usize::MAX,
        ensures
            final(self).spec_enabled() == old(self).spec_enabled(),
            final(self).spec_width() == old(self).spec_width(),
            final(self).spec_current_line() == old(self).spec_current_line() + 1,
            old(self).spec_enabled() ==> final(out)@ == old(out)@ + spec_line_prefix(
                old(self).spec_current_line() + 1,
                old(self).spec_width(),
            ),
            !old(self).spec_enabled() ==> final(out)@ == old(out)@,
    {
        self.current_line = self.current_line + 1;
        if self.show_line_numbers {
            append_line_prefix(out, self.current_line, self.line_number_width);
        }
    }

    /// Write a newline and prepare for the next line.
    pub fn write_newline(&mut self, out: &mut String)
        ensures
            *final(self) == *old(self),
            final(out)@ == old(out)@ + seq!['\n'],
    {
        out.append("\n");
        proof {
            reveal_strlit("\n");
            assert(old(out)@ + ("\n")@ =~= old(out)@ + seq!['\n']);
        }
    }

    /// Get the current line number.
    pub fn current_line(&self) -> (line: usize)
        ensures
            line as nat == self.spec_current_line(),
    {
        self.current_line
    }
}

/// Reading estimates are a ceiling: a document with no words reads in zero
/// minutes, and otherwise the estimate is the least number of whole minutes
/// covering the word count at 225 words per minute.
pub proof fn lemma_reading_time_is_ceiling(words: nat)
    ensures
        words == 0 ==> spec_reading_time(words) == 0,
        words > 0 ==> spec_reading_time(words) >= 1,
        225 * spec_reading_time(words) >= words,
        words > 0 ==> 225 * (spec_reading_time(words) - 1) < words,
{
    vstd::arithmetic::div_mod::lemma_fundamental_div_mod(words as int + 224, 225);
    vstd::arithmetic::div_mod::lemma_mod_bound(words as int + 224, 225);
    vstd::arithmetic::div_mod::lemma_div_pos_is_pos(words as int + 224, 225);
}

/// Scanning the same text twice yields identical counters: the statistics are
/// a function of the text, with no hidden state between runs.
pub proof fn lemma_stats_deterministic(s: Seq<char>, a: DocumentStats, b: DocumentStats)
    requires
        stats_for(s, a),
        stats_for(s, b),
    ensures
        a == b,
{
}

} // verus!
