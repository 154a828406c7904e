use qlty::snippet::truncate_snippet;

#[test]
fn test_truncate_snippet_no_truncation_needed() {
    let input = "Line 1\nLine 2\nLine 3";
    let result = truncate_snippet(input);
    assert_eq!(result, input);
}

#[test]
fn test_truncate_snippet_by_line_count() {
    let lines: Vec<String> = (1..=1500).map(|i| format!("Line {}", i)).collect();
    let input = lines.join("\n");
    let result = truncate_snippet(&input);

    let result_lines: Vec<&str> = result.lines().collect();
    assert_eq!(result_lines.len(), 1000);
    assert_eq!(result_lines[0], "Line 1");
    assert_eq!(result_lines[999], "Line 1000");
}

#[test]
fn test_truncate_snippet_by_byte_size() {
    let long_line = "a".repeat(60 * 1024);
    let input = format!("Short line\n{}", long_line);
    let result = truncate_snippet(&input);

    assert!(result.len() <= 50 * 1024);
    assert!(result.starts_with("Short line"));
    assert!(!result.contains(&long_line));
}

#[test]
fn test_truncate_snippet_byte_size_respects_line_boundaries() {
    let line_size = 100;
    let line = "a".repeat(line_size);
    let num_lines = (50 * 1024) / line_size + 10;
    let lines: Vec<String> = (0..num_lines).map(|_| line.clone()).collect();
    let input = lines.join("\n");

    let result = truncate_snippet(&input);

    assert!(result.len() <= 50 * 1024);
    let result_lines: Vec<&str> = result.lines().collect();
    for line in result_lines {
        assert_eq!(line.len(), line_size);
    }
}

#[test]
fn test_truncate_snippet_empty_string() {
    let input = "";
    let result = truncate_snippet(input);
    assert_eq!(result, "");
}

#[test]
fn test_truncate_snippet_single_line() {
    let input = "Single line";
    let result = truncate_snippet(input);
    assert_eq!(result, input);
}

#[test]
fn test_truncate_snippet_exactly_at_limits() {
    let lines: Vec<String> = (1..=1000).map(|i| format!("Line {}", i)).collect();
    let input = lines.join("\n");
    let result = truncate_snippet(&input);
    assert_eq!(result, input);
}

#[test]
fn truncate_snippet_keeps_a_trailing_newline_of_the_input() {
    assert_eq!(truncate_snippet("a\nb\n"), "a\nb\n");
}

#[test]
fn truncate_snippet_counts_bytes_not_characters() {
    // Each 'é' takes two bytes: 25_600 of them fill the byte limit exactly.
    let first = "é".repeat(25_600);
    let input = format!("{}\nnext", first);
    let result = truncate_snippet(&input);
    assert_eq!(result, "");
    let fits = "é".repeat(25_599);
    let input = format!("{}\nnext", fits);
    assert_eq!(truncate_snippet(&input), fits);
}

#[test]
fn truncate_snippet_is_idempotent_on_examples() {
    for input in ["", "x", "a\nb", "a\nb\n", "\n\n\n"] {
        let once = truncate_snippet(input);
        assert_eq!(truncate_snippet(&once), once);
    }
}

#[test]
fn truncation_keeps_a_prefix_within_the_byte_limit() {
    let line = format!("{}\n", "é".repeat(100));
    let input = line.repeat(400);
    let result = truncate_snippet(&input);
    assert!(input.starts_with(&result));
    assert!(result.len() <= 50 * 1024);
    assert_eq!(result.len() % line.len(), 0);
    assert_eq!(result.len() / line.len(), 50 * 1024 / line.len());
}

#[test]
fn truncating_twice_is_truncating_once() {
    let lines: Vec<String> = (1..=1500).map(|i| format!("Line {}", i)).collect();
    let input = lines.join("\n");
    let once = truncate_snippet(&input);
    assert_eq!(once.lines().count(), 1000);
    assert_eq!(truncate_snippet(&once), once);
    let long = "x".repeat(60000);
    let once = truncate_snippet(&long);
    assert_eq!(truncate_snippet(&once), once);
}
