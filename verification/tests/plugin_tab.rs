use qlty::analysis::{
    Category, Issue, Level, Location, Range, Replacement, Suggestion, SuggestionSource,
};
use qlty::planner::plugin_tab_column_width_transformer::PluginTabColumnWidthTransformer;

fn at(path: &str, line: u32, start: u32, end: u32) -> Option<Location> {
    Some(Location {
        path: path.to_string(),
        range: Some(Range {
            start_line: line,
            start_column: start,
            end_line: line,
            end_column: end,
        }),
    })
}

fn shellcheck_issue(location: Option<Location>, replacements: Vec<Replacement>) -> Issue {
    Issue {
        tool: "shellcheck".to_string(),
        rule_key: "2086".to_string(),
        message: "Double quote to prevent globbing and word splitting.".to_string(),
        level: Level::Low,
        category: Category::Lint,
        documentation_url: String::new(),
        location,
        suggestions: vec![Suggestion {
            source: SuggestionSource::Tool,
            is_unsafe: false,
            replacements,
        }],
    }
}

fn transformer(width: usize) -> PluginTabColumnWidthTransformer {
    PluginTabColumnWidthTransformer {
        sources: vec![(
            "/tmp/src/main.sh".to_string(),
            "#!/bin/sh\n\nfoo() {\n\tif true; then\n\t\techo $1\n\tfi\n}\n".to_string(),
        )],
        tab_column_width: width,
        plugin_name: "shellcheck".to_string(),
    }
}

#[test]
fn tabs_before_columns_count_as_one_column() {
    let t = transformer(8);
    let replacements = vec![
        Replacement {
            data: "\"".to_string(),
            location: at("/tmp/src/main.sh", 5, 22, 22),
        },
        Replacement {
            data: "\"".to_string(),
            location: at("/tmp/src/main.sh", 5, 24, 24),
        },
    ];
    let issue = shellcheck_issue(at("/tmp/src/main.sh", 5, 22, 24), replacements);
    let out = t.transform(issue).unwrap();
    assert_eq!(out.location, at("/tmp/src/main.sh", 5, 8, 10));
    assert_eq!(out.suggestions[0].replacements[0].location, at("/tmp/src/main.sh", 5, 8, 8));
    assert_eq!(out.suggestions[0].replacements[1].location, at("/tmp/src/main.sh", 5, 10, 10));
    assert_eq!(out.suggestions[0].replacements[0].data, "\"");
}

#[test]
fn columns_of_lines_without_tabs_stay() {
    let t = transformer(8);
    assert_eq!(
        t.get_correct_columns_for_path_and_range(
            "/tmp/src/main.sh",
            Range { start_line: 3, start_column: 2, end_line: 3, end_column: 5 }
        ),
        Some([2, 5])
    );
}

#[test]
fn only_tabs_before_each_column_count() {
    let t = transformer(4);
    // Line 4 is "\tif true; then": one tab before column 2 and after.
    assert_eq!(
        t.get_correct_columns_for_path_and_range(
            "/tmp/src/main.sh",
            Range { start_line: 4, start_column: 1, end_line: 4, end_column: 6 }
        ),
        Some([1, 3])
    );
}

#[test]
fn unknown_files_and_lines_keep_their_columns() {
    let t = transformer(8);
    assert_eq!(
        t.get_correct_columns_for_path_and_range(
            "/tmp/other.sh",
            Range { start_line: 5, start_column: 22, end_line: 5, end_column: 24 }
        ),
        Some([22, 24])
    );
    assert_eq!(
        t.get_correct_columns_for_path_and_range(
            "/tmp/src/main.sh",
            Range { start_line: 40, start_column: 22, end_line: 40, end_column: 24 }
        ),
        Some([22, 24])
    );
}

#[test]
fn shifted_columns_never_go_below_zero() {
    let t = transformer(8);
    // Two tabs before column 3 move it left by 14.
    assert_eq!(
        t.get_correct_columns_for_path_and_range(
            "/tmp/src/main.sh",
            Range { start_line: 5, start_column: 3, end_line: 5, end_column: 3 }
        ),
        Some([0, 0])
    );
}

#[test]
fn issues_of_other_tools_pass_unchanged() {
    let t = transformer(8);
    let mut issue = shellcheck_issue(at("/tmp/src/main.sh", 5, 22, 24), vec![]);
    issue.tool = "shfmt".to_string();
    let out = t.transform(issue.clone()).unwrap();
    assert_eq!(out, issue);
}
