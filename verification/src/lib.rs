//! Core pipeline of a terminal markdown viewer: document statistics,
//! line-number annotation, the resource-access policy with its dispatching
//! resolver, and the output-flush classification that treats a broken pipe
//! as a graceful stop.
//!
//! Reading input, rendering to the terminal and paging are left to the
//! binary around this library; everything here is a pure function of the
//! document text and the configuration flags.

pub mod annotate;
pub mod markdown;
pub mod output;
pub mod resources;
pub mod stats;
pub mod text;

use vstd::prelude::*;

verus! {

/// A per-file processing plan derived from the two display flags.
///
/// Statistics-only mode (statistics requested, line numbers not) writes the
/// formatted statistics block and performs no rendering at all.
pub struct PipelinePlan {
    /// Write the formatted statistics block before anything else.
    pub emit_stats: bool,
    /// Annotate the raw text with line numbers before parsing it.
    pub annotate_lines: bool,
    /// Parse the (possibly annotated) text and drive the renderer.
    pub render: bool,
}

/// Derive the per-file plan from the `--stats` and `--line-numbers` flags.
pub fn plan_pipeline(show_stats: bool, show_line_numbers: bool) -> (plan: PipelinePlan)
    ensures
        plan.emit_stats == show_stats,
        plan.render == !(show_stats && !show_line_numbers),
        plan.annotate_lines == show_line_numbers,
{
    PipelinePlan {
        emit_stats: show_stats,
        annotate_lines: show_line_numbers,
        render: !show_stats || show_line_numbers,
    }
}

/// Whether a filename token asks for standard input: it equals the sentinel
/// `-`. Any other token names a file to open.
pub fn reads_standard_input(filename: &str) -> (r: bool)
    ensures
        r == (filename@ == ("-")@),
{
    crate::text::str_eq(filename, "-")
}

/// Statistics-only mode short-circuits rendering: whenever statistics are
/// requested and line numbers are not, the plan writes the statistics block
/// and never renders nor annotates.
pub proof fn lemma_stats_only_short_circuits(plan: PipelinePlan, show_stats: bool, show_line_numbers: bool)
    requires
        plan.emit_stats == show_stats,
        plan.render == !(show_stats && !show_line_numbers),
        plan.annotate_lines == show_line_numbers,
        show_stats,
        !show_line_numbers,
    ensures
        plan.emit_stats,
        !plan.render,
        !plan.annotate_lines,
{
}

} // verus!
