use mdcat::stats::{DocumentStats, LineNumberFormatter};

#[test]
fn test_document_stats() {
    let content = "# Test Document\n\nThis is a **test** document with [a link](http://example.com).\n\n```rust\nfn main() {\n    println!(\"Hello, world!\");\n}\n```\n\n## Another heading\n\n- List item 1\n- List item 2\n\n1. Ordered item 1\n2. Ordered item 2";

    let stats = DocumentStats::from_markdown(content);

    // Basic counts
    assert!(stats.character_count > 0);
    assert!(stats.word_count > 0);
    assert!(stats.line_count > 0);

    // Structural elements
    assert_eq!(stats.heading_count, 2); // # Test Document and ## Another heading
    assert_eq!(stats.code_block_count, 1); // The rust code block
    assert_eq!(stats.link_count, 1); // The link
    assert_eq!(stats.image_count, 0); // No images
    assert_eq!(stats.list_count, 2); // One unordered list, one ordered list
    assert_eq!(stats.table_count, 0); // No tables

    // Reading time calculation
    let reading_time = stats.reading_time_minutes();
    assert!(reading_time > 0);

    // Formatting
    let formatted = stats.format();
    assert!(formatted.contains("Document Statistics:"));
    assert!(formatted.contains("Characters:"));
    assert!(formatted.contains("Words:"));
    assert!(formatted.contains("Lines:"));
    assert!(formatted.contains("Headings:"));
    assert!(formatted.contains("Code blocks:"));
    assert!(formatted.contains("Links:"));
    assert!(formatted.contains("Images:"));
    assert!(formatted.contains("Lists:"));
    assert!(formatted.contains("Tables:"));
    assert!(formatted.contains("Estimated reading time:"));
}

#[test]
fn test_line_number_formatter() {
    let mut formatter = LineNumberFormatter::new(true, 100);
    let mut output = String::new();

    // Line number writing
    formatter.write_line_number(&mut output);
    output.push_str("test line");
    formatter.write_newline(&mut output);

    formatter.write_line_number(&mut output);
    output.push_str("another line");
    formatter.write_newline(&mut output);

    assert!(output.contains("1 │ test line"));
    assert!(output.contains("2 │ another line"));

    // A total of 100 lines makes the column three wide
    assert!(output.contains("  1 │ test line\n"));
    assert!(output.contains("  2 │ another line\n"));

    // Current line tracking
    assert_eq!(formatter.current_line(), 2);
}

#[test]
fn test_line_number_formatter_disabled() {
    let mut formatter = LineNumberFormatter::new(false, 100);
    let mut output = String::new();

    // No line numbers are added when disabled
    formatter.write_line_number(&mut output);
    output.push_str("test line");
    formatter.write_newline(&mut output);

    assert!(!output.contains("│"));
    assert!(output.contains("test line"));
}

#[test]
fn line_number_cursor_advances_when_disabled() {
    let mut formatter = LineNumberFormatter::new(false, 100);
    let mut output = String::new();

    // The cursor counts prefix writes even when nothing is emitted
    formatter.write_line_number(&mut output);
    formatter.write_newline(&mut output);
    formatter.write_line_number(&mut output);
    formatter.write_newline(&mut output);

    assert_eq!(formatter.current_line(), 2);
    assert_eq!(output, "\n\n");
}
