use mdcat::annotate::annotate_line_numbers;
use mdcat::output::{classify_render_result, outcome_is_success, RenderOutcome, SinkError};
use mdcat::plan_pipeline;
use mdcat::resources::{
    create_resolver_chain, dispatch, exceeds_read_limit, resource_access, DispatchDecision,
    ResourceAccess, DEFAULT_RESOURCE_READ_LIMIT,
};
use mdcat::stats::DocumentStats;

#[test]
fn stats_structural_scenario() {
    let content = "# Test Document\n\nThis is a **test** document with [a link](http://example.com).\n\n```rust\nfn main() {}\n```\n\n## Another heading\n\n- a\n- b\n\n1. c\n2. d";
    let stats = DocumentStats::from_markdown(content);
    assert_eq!(stats.heading_count, 2);
    assert_eq!(stats.code_block_count, 1);
    assert_eq!(stats.link_count, 1);
    assert_eq!(stats.image_count, 0);
    assert_eq!(stats.list_count, 2);
    assert_eq!(stats.table_count, 0);
}

#[test]
fn stats_basic_counts() {
    let stats = DocumentStats::from_markdown("hello world");
    assert_eq!(stats.character_count, 11);
    assert_eq!(stats.word_count, 2);
    assert_eq!(stats.line_count, 1);
    assert_eq!(stats.reading_time_minutes(), 1);

    let empty = DocumentStats::from_markdown("");
    assert_eq!(empty.character_count, 0);
    assert_eq!(empty.word_count, 0);
    assert_eq!(empty.line_count, 0);
    assert_eq!(empty.reading_time_minutes(), 0);

    // Byte length, not codepoint count
    let non_ascii = DocumentStats::from_markdown("é");
    assert_eq!(non_ascii.character_count, 2);

    // A trailing newline does not produce an extra empty line
    let trailing = DocumentStats::from_markdown("a\nb\n");
    assert_eq!(trailing.line_count, 2);

    let table = DocumentStats::from_markdown("| a | b |\n|---|---|\n| 1 | 2 |");
    assert_eq!(table.table_count, 1);

    let image = DocumentStats::from_markdown("![alt](img.png)");
    assert_eq!(image.image_count, 1);
}

#[test]
fn reading_time_is_ceiling_of_word_count() {
    let one = DocumentStats::from_markdown("word");
    assert_eq!(one.word_count, 1);
    assert_eq!(one.reading_time_minutes(), 1);

    let exactly = "w ".repeat(225);
    let stats = DocumentStats::from_markdown(&exactly);
    assert_eq!(stats.word_count, 225);
    assert_eq!(stats.reading_time_minutes(), 1);

    let over = "w ".repeat(226);
    let stats = DocumentStats::from_markdown(&over);
    assert_eq!(stats.word_count, 226);
    assert_eq!(stats.reading_time_minutes(), 2);
}

#[test]
fn stats_format_exact_block() {
    let stats = DocumentStats::from_markdown("hello world");
    let expected = "Document Statistics:\n───────────────────\nCharacters: 11\nWords: 2\nLines: 1\nHeadings: 0\nCode blocks: 0\nLinks: 0\nImages: 0\nLists: 0\nTables: 0\nEstimated reading time: 1 minute\n";
    assert_eq!(stats.format(), expected);
}

#[test]
fn stats_format_pluralizes_minutes() {
    let empty = DocumentStats::from_markdown("");
    assert!(empty.format().contains("Estimated reading time: 0 minutes\n"));

    let long = "w ".repeat(300);
    let stats = DocumentStats::from_markdown(&long);
    assert!(stats.format().contains("Estimated reading time: 2 minutes\n"));
}

#[test]
fn annotate_numbers_every_line() {
    assert_eq!(annotate_line_numbers("a\nb\nc"), "1 │ a\n2 │ b\n3 │ c");

    // A trailing newline does not produce an extra numbered line
    assert_eq!(annotate_line_numbers("x\n"), "1 │ x");

    // Carriage returns before line feeds are stripped
    assert_eq!(annotate_line_numbers("a\r\nb"), "1 │ a\n2 │ b");

    // An empty document stays empty
    assert_eq!(annotate_line_numbers(""), "");
}

#[test]
fn annotate_right_aligns_to_total_width() {
    let input = "a\nb\nc\nd\ne\nf\ng\nh\ni\nj";
    let annotated = annotate_line_numbers(input);
    assert!(annotated.starts_with(" 1 │ a\n"));
    assert!(annotated.contains("\n 9 │ i\n"));
    assert!(annotated.ends_with("\n10 │ j"));
}

#[test]
fn plan_stats_only_short_circuits_rendering() {
    let plan = plan_pipeline(true, false);
    assert!(plan.emit_stats);
    assert!(!plan.render);
    assert!(!plan.annotate_lines);

    let plan = plan_pipeline(true, true);
    assert!(plan.emit_stats);
    assert!(plan.render);
    assert!(plan.annotate_lines);

    let plan = plan_pipeline(false, false);
    assert!(!plan.emit_stats);
    assert!(plan.render);
    assert!(!plan.annotate_lines);
}

#[test]
fn policy_from_flag() {
    assert_eq!(resource_access(true), ResourceAccess::LocalOnly);
    assert_eq!(resource_access(false), ResourceAccess::Remote);
}

#[test]
fn resolver_chain_ordering() {
    let remote = create_resolver_chain(ResourceAccess::Remote, DEFAULT_RESOURCE_READ_LIMIT);
    assert_eq!(remote.len(), 2);
    // A file URL is claimed by the first (local-file) strategy alone
    assert_eq!(dispatch(&remote, "file"), DispatchDecision::Attempt(0));
    // A remote URL falls through to the network strategy
    assert_eq!(dispatch(&remote, "http"), DispatchDecision::Attempt(1));
    assert_eq!(dispatch(&remote, "https"), DispatchDecision::Attempt(1));

    let local = create_resolver_chain(ResourceAccess::LocalOnly, DEFAULT_RESOURCE_READ_LIMIT);
    assert_eq!(local.len(), 1);
    assert_eq!(dispatch(&local, "file"), DispatchDecision::Attempt(0));
    // Remote access disabled: a recognizable failure, no network strategy consulted
    assert_eq!(dispatch(&local, "http"), DispatchDecision::RemoteDisabled);
    assert_eq!(dispatch(&local, "ftp"), DispatchDecision::Unsupported);
}

#[test]
fn read_limit_is_a_failure_not_a_truncation() {
    assert!(!exceeds_read_limit(DEFAULT_RESOURCE_READ_LIMIT, DEFAULT_RESOURCE_READ_LIMIT));
    assert!(exceeds_read_limit(DEFAULT_RESOURCE_READ_LIMIT + 1, DEFAULT_RESOURCE_READ_LIMIT));
}

#[test]
fn broken_pipe_is_a_successful_outcome() {
    let ok: RenderOutcome<String> = classify_render_result(Ok(()));
    assert!(outcome_is_success(&ok));
    assert!(matches!(ok, RenderOutcome::Completed));

    let truncated: RenderOutcome<String> = classify_render_result(Err(SinkError::BrokenPipe));
    assert!(outcome_is_success(&truncated));
    assert!(matches!(truncated, RenderOutcome::TruncatedByConsumer));

    let failed: RenderOutcome<String> =
        classify_render_result(Err(SinkError::Other("disk full".to_string())));
    assert!(!outcome_is_success(&failed));
    match failed {
        RenderOutcome::Failed(cause) => assert_eq!(cause, "disk full"),
        _ => panic!("a genuine write failure must surface as a failure"),
    }
}

#[test]
fn stdin_sentinel() {
    assert!(mdcat::reads_standard_input("-"));
    assert!(!mdcat::reads_standard_input("README.md"));
    assert!(!mdcat::reads_standard_input(""));
}
