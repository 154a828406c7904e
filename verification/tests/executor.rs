use qlty::analysis::{Category, Issue, Level};
use qlty::executor::{
    apply_issue_limit, build_issue_results, format_max_issues_error, format_number,
    issue_limit_details, issue_limit_report, InvocationIssues, MAX_ISSUES,
};

fn issue(tool: &str, n: usize) -> Issue {
    Issue {
        tool: tool.to_string(),
        rule_key: format!("rule-{n}"),
        message: "message".to_string(),
        level: Level::Medium,
        category: Category::Lint,
        documentation_url: String::new(),
        location: None,
        suggestions: vec![],
    }
}

fn issues(tool: &str, count: usize) -> Vec<Issue> {
    (0..count).map(|n| issue(tool, n)).collect()
}

#[test]
fn numbers_are_grouped_by_thousands() {
    assert_eq!(format_number(0), "0");
    assert_eq!(format_number(999), "999");
    assert_eq!(format_number(1000), "1,000");
    assert_eq!(format_number(50000), "50,000");
    assert_eq!(format_number(1234567), "1,234,567");
}

#[test]
fn max_issues_error_counts_issues_by_tool() {
    let mut all = issues("eslint", 2);
    all.extend(issues("rubocop", 3));
    all.push(issue("eslint", 9));
    all.extend(issues("shellcheck", 1));
    all.extend(issues("rubocop", 1001));
    let text = format_max_issues_error(&all);
    assert_eq!(
        text,
        "Maximum issue count of 50,000 reached. Execution halted.\n\nIssue count by tool:\n  rubocop (1,004 issues)\n  eslint (3 issues)\n  shellcheck (1 issues)\n\nPlease adjust your configuration to reduce the number of issues generated.\nFor more information: https://qlty.sh/d/too-many-issues"
    );
}

#[test]
fn issue_results_come_in_order() {
    let cache = vec![issues("a", 2)];
    let invocations = vec![
        InvocationIssues {
            plugin_name: "b".to_string(),
            success: true,
            file_issues: Some(vec![issues("b", 1), issues("b", 2)]),
        },
        InvocationIssues {
            plugin_name: "c".to_string(),
            success: false,
            file_issues: None,
        },
    ];
    let r = build_issue_results(&cache, &invocations, false).unwrap();
    let tools: Vec<&str> = r.iter().map(|i| i.tool.as_str()).collect();
    assert_eq!(tools, vec!["a", "a", "b", "b", "b"]);
    assert_eq!(r[3].rule_key, "rule-0");
}

#[test]
fn issue_results_skip_errored_plugins() {
    let invocations = vec![
        InvocationIssues {
            plugin_name: "good".to_string(),
            success: true,
            file_issues: Some(vec![issues("good", 2)]),
        },
        InvocationIssues {
            plugin_name: "bad".to_string(),
            success: false,
            file_issues: Some(vec![issues("bad", 3)]),
        },
    ];
    let cache = vec![issues("bad", 1), issues("other", 1)];
    let kept = build_issue_results(&cache, &invocations, true).unwrap();
    let tools: Vec<&str> = kept.iter().map(|i| i.tool.as_str()).collect();
    assert_eq!(tools, vec!["other", "good", "good"]);
    let all = build_issue_results(&cache, &invocations, false).unwrap();
    assert_eq!(all.len(), 7);
}

#[test]
fn issue_results_stop_at_the_limit() {
    let cache = vec![issues("a", MAX_ISSUES - 1)];
    let invocations = vec![InvocationIssues {
        plugin_name: "b".to_string(),
        success: true,
        file_issues: Some(vec![issues("b", 5)]),
    }];
    let err = build_issue_results(&cache, &invocations, false).unwrap_err();
    assert!(err.contains("  a (49,999 issues)\n  b (1 issues)\n"));
    let ok = build_issue_results(&cache, &[], false).unwrap();
    assert_eq!(ok.len(), MAX_ISSUES - 1);
}

#[test]
fn files_are_cut_to_the_per_file_limit() {
    let mut many = issues("a", 700);
    assert!(apply_issue_limit(&mut many));
    assert_eq!(many.len(), 500);
    let mut exactly = issues("a", 500);
    assert!(apply_issue_limit(&mut exactly));
    assert_eq!(exactly.len(), 500);
    let mut few = issues("a", 499);
    assert!(!apply_issue_limit(&mut few));
    assert_eq!(few.len(), 499);
}

#[test]
fn limited_files_are_listed() {
    assert_eq!(
        issue_limit_details(&["a.rs".to_string(), "b/c.rs".to_string()]),
        "The following files have been skipped due to the issue limit: a.rs, b/c.rs"
    );
}

#[test]
fn cut_files_are_listed_once_and_reported_only_when_there_are_some() {
    let files = vec![
        ("a.rs".to_string(), 500),
        ("b.rs".to_string(), 10),
        ("c.rs".to_string(), 900),
        ("a//rs".to_string(), 3),
        ("./a.rs".to_string(), 600),
        ("a.rs/".to_string(), 700),
    ];
    let (cut, details) = issue_limit_report(&files);
    assert_eq!(cut, vec!["a.rs".to_string(), "c.rs".to_string(), "./a.rs".to_string()]);
    assert_eq!(
        details.unwrap(),
        "The following files have been skipped due to the issue limit: a.rs, c.rs, ./a.rs"
    );
    let (cut, details) = issue_limit_report(&[("x.rs".to_string(), 499)]);
    assert!(cut.is_empty());
    assert!(details.is_none());
}
