use qlty::analysis::{Category, Issue, Level, Location, Range, SuggestionSource};
use qlty::parser::ast_grep::{AstGrep, AstGrepIssue, AstGrepRange, ByteOffset, Label, Position};
use qlty::parser::biome::{
    calculate_line_and_column, Biome, BiomeDiagnostic, BiomeLocation, BiomeOutput, BiomePath,
};
use qlty::parser::editorconfig_checker::{
    derive_rule_key, CodeClimateIssue, CodeClimateLines, CodeClimateLocation, EditorconfigChecker,
};
use qlty::parser::haml_lint::{
    HamlLint, HamlLintFiles, HamlLintLocation, HamlLintOffense, HamlLintOutput,
};
use qlty::parser::mypy::{json_lines, normalize_column, Mypy, MypyMessage};
use qlty::parser::rdjson::{
    Rdjson, RdjsonCode, RdjsonDiagnostic, RdjsonLocation, RdjsonOutput, RdjsonPosition,
    RdjsonRange, RdjsonSuggestion,
};
use qlty::parser::reek::{Reek, ReekSmell};
use qlty::parser::terraform::{
    Diagnostic, DiagnosticPosition, DiagnosticRange, Terraform, TerraformOutput,
};

fn range(start_line: u32, start_column: u32, end_line: u32, end_column: u32) -> Option<Range> {
    Some(Range {
        start_line,
        start_column,
        end_line,
        end_column,
    })
}

fn lint(tool: &str, rule: &str, message: &str, level: Level, path: &str, r: Option<Range>) -> Issue {
    Issue {
        tool: tool.to_string(),
        rule_key: rule.to_string(),
        message: message.to_string(),
        level,
        category: Category::Lint,
        documentation_url: String::new(),
        location: Some(Location {
            path: path.to_string(),
            range: r,
        }),
        suggestions: vec![],
    }
}

const BIOME_SOURCE: &str = "const foobar = () => { }\nconst barfoo = () => { }\n\nenum Bar { Baz };\n\nconst foo = (bar: Bar) => {\n  switch (bar) {\n    case Bar.Baz:\n      foobar();\n      barfoo();\n      break;\n  }\n  { !foo ? null : 1 }\n}\n";

fn biome_diagnostic(category: &str, description: &str, span: Option<Vec<u64>>, source: Option<&str>) -> BiomeDiagnostic {
    BiomeDiagnostic {
        category: category.to_string(),
        severity: "error".to_string(),
        description: description.to_string(),
        location: BiomeLocation {
            path: BiomePath {
                file: "basic.in.ts".to_string(),
            },
            span,
            source_code: source.map(|s| s.to_string()),
        },
    }
}

#[test]
fn biome_parse() {
    let output = BiomeOutput {
        diagnostics: vec![
            biome_diagnostic(
                "lint/style/useEnumInitializers",
                "This enum declaration contains members that are implicitly initialized.",
                Some(vec![56, 59]),
                Some(BIOME_SOURCE),
            ),
            biome_diagnostic(
                "lint/complexity/noUselessLoneBlockStatements",
                "This block statement doesn't serve any purpose and can be safely removed.",
                Some(vec![184, 203]),
                Some(BIOME_SOURCE),
            ),
            biome_diagnostic(
                "format",
                "Formatter would have printed the following content:",
                None,
                None,
            ),
        ],
    };

    let issues = Biome {}.parse("bandit", &output);
    assert_eq!(
        issues,
        vec![
            lint(
                "biome",
                "lint/style/useEnumInitializers",
                "This enum declaration contains members that are implicitly initialized.",
                Level::High,
                "basic.in.ts",
                range(4, 6, 4, 9),
            ),
            lint(
                "biome",
                "lint/complexity/noUselessLoneBlockStatements",
                "This block statement doesn't serve any purpose and can be safely removed.",
                Level::High,
                "basic.in.ts",
                range(13, 3, 13, 22),
            ),
        ]
    );
}

#[test]
fn biome_without_source_has_no_range_and_short_span_zeroes() {
    let mut warning = biome_diagnostic("lint/x", "d", Some(vec![3]), Some("abc"));
    warning.severity = "warning".to_string();
    let output = BiomeOutput {
        diagnostics: vec![warning, biome_diagnostic("lint/y", "e", Some(vec![0, 1]), None)],
    };
    let issues = Biome {}.parse("biome", &output);
    assert_eq!(issues[0].location.as_ref().unwrap().range, range(0, 0, 0, 0));
    assert_eq!(issues[0].level, Level::Medium);
    assert_eq!(issues[1].location.as_ref().unwrap().range, None);
}

#[test]
fn calculate_line_and_column_of_offsets() {
    assert_eq!(calculate_line_and_column("ab\ncd\n", 0, 4), (1, 1, 2, 2));
    assert_eq!(calculate_line_and_column("ab\ncd\n", 2, 99), (1, 3, 0, 0));
    assert_eq!(calculate_line_and_column("", 0, 0), (0, 0, 0, 0));
    // Multi-byte characters count by their bytes.
    assert_eq!(calculate_line_and_column("é\nx", 3, 3), (2, 1, 2, 1));
}

fn ast_grep_match(rule_id: &str, severity: &str, message: &str, start: (u32, u32), end: (u32, u32), file: &str) -> AstGrepIssue {
    let r = AstGrepRange {
        byte_offset: ByteOffset { start: 0, end: 20 },
        start: Position {
            line: start.0,
            column: start.1,
        },
        end: Position {
            line: end.0,
            column: end.1,
        },
    };
    AstGrepIssue {
        text: String::new(),
        range: r,
        file: file.to_string(),
        lines: String::new(),
        language: "Ruby".to_string(),
        rule_id: rule_id.to_string(),
        severity: severity.to_string(),
        note: None,
        message: message.to_string(),
        labels: vec![Label {
            text: String::new(),
            range: r,
        }],
    }
}

#[test]
fn parse_line_numbers_are_one_indexed() {
    let matches = vec![ast_grep_match("test-rule", "error", "test message", (0, 0), (0, 20), "test.rb")];
    let issues = AstGrep {}.parse("ast-grep", &matches);
    assert_eq!(issues.len(), 1);

    let range = issues[0].location.as_ref().unwrap().range.as_ref().unwrap();
    assert_eq!(range.start_line, 1, "start_line should be 1-indexed");
    assert_eq!(range.end_line, 1, "end_line should be 1-indexed");
    assert_eq!(range.start_column, 1, "start_column should be 1-indexed");
    assert_eq!(range.end_column, 21, "end_column should be 1-indexed");
}

#[test]
fn ast_grep_parse() {
    let matches = vec![ast_grep_match("no-await-in-promise-all", "hint", "", (2, 0), (2, 26), "sample.ts")];
    let issues = AstGrep {}.parse("ast-grep", &matches);
    assert_eq!(
        issues,
        vec![lint(
            "ast-grep",
            "no-await-in-promise-all",
            "AST pattern match found: no-await-in-promise-all",
            Level::Low,
            "sample.ts",
            range(3, 1, 3, 27),
        )]
    );
}

#[test]
fn ast_grep_levels() {
    let issues = AstGrep {}.parse(
        "ast-grep",
        &[
            ast_grep_match("r", "warning", "m", (0, 0), (0, 0), "f"),
            ast_grep_match("r", "info", "m", (0, 0), (0, 0), "f"),
            ast_grep_match("r", "other", "m", (0, 0), (0, 0), "f"),
        ],
    );
    assert_eq!(issues[0].level, Level::Medium);
    assert_eq!(issues[1].level, Level::Low);
    assert_eq!(issues[2].level, Level::Medium);
}

fn code_climate(description: &str, path: &str, begin: i64, end: i64) -> CodeClimateIssue {
    CodeClimateIssue {
        description: description.to_string(),
        severity: "minor".to_string(),
        location: CodeClimateLocation {
            path: path.to_string(),
            lines: CodeClimateLines { begin, end },
        },
    }
}

#[test]
fn parse_negative_line_number() {
    let messages = vec![code_climate("Wrong character encoding", "foo.h", -1, 0)];
    let issues = EditorconfigChecker {}.parse("editorconfig-checker", &messages);
    assert_eq!(issues.len(), 1);
    let range = issues[0].location.as_ref().unwrap().range.as_ref().unwrap();
    assert_eq!(range.start_line, 0);
    assert_eq!(range.end_line, 0);
}

#[test]
fn editorconfig_checker_parse() {
    let messages = vec![
        code_climate("Trailing whitespace", "test.py", 2, 0),
        code_climate("Wrong amount of left-padding spaces(want multiple of 4)", "test.py", 2, 0),
        code_climate("Wrong indent style found (tabs instead of spaces)", "test.py", 3, 1),
    ];
    let issues = EditorconfigChecker {}.parse("editorconfig-checker", &messages);
    assert_eq!(
        issues,
        vec![
            lint("editorconfig-checker", "trim_trailing_whitespace", "Trailing whitespace", Level::Low, "test.py", range(2, 0, 2, 0)),
            lint("editorconfig-checker", "indent_size", "Wrong amount of left-padding spaces(want multiple of 4)", Level::Low, "test.py", range(2, 0, 2, 0)),
            lint("editorconfig-checker", "indent_style", "Wrong indent style found (tabs instead of spaces)", Level::Low, "test.py", range(3, 0, 4, 0)),
        ]
    );
}

#[test]
fn derive_rule_key_of_each_description() {
    assert_eq!(derive_rule_key("Final newline expected"), "insert_final_newline");
    assert_eq!(derive_rule_key("No final newline expected"), "insert_final_newline");
    assert_eq!(derive_rule_key("Line too long (90 > 80)"), "max_line_length");
    assert_eq!(derive_rule_key("Wrong line endings or no final newline"), "end_of_line");
    assert_eq!(derive_rule_key("Not all lines have the correct end of line character"), "end_of_line");
    assert_eq!(derive_rule_key("Wrong character encoding"), "charset");
    assert_eq!(derive_rule_key("Something else"), "unknown");
}

#[test]
fn haml_lint_parse() {
    let offense = |severity: &str, message: &str, line: u32, linter: &str| HamlLintOffense {
        severity: severity.to_string(),
        message: message.to_string(),
        location: HamlLintLocation { line },
        linter_name: linter.to_string(),
    };
    let output = HamlLintOutput {
        files: vec![HamlLintFiles {
            path: "basic.in.haml".to_string(),
            offenses: vec![
                offense("warning", "Empty script should be removed", 5, "EmptyScript"),
                offense("warning", "`id` attribute must be in lisp-case", 2, "IdNames"),
                offense("error", "Couldn't process the file for linting. ArgumentError: comparison of Integer with nil failed", 0, "RuboCop"),
                offense("warning", "The - symbol should have one space separating it from code", 5, "SpaceBeforeScript"),
            ],
        }],
    };
    let issues = HamlLint {}.parse("HamlLint", &output);
    assert_eq!(
        issues,
        vec![
            lint("HamlLint", "EmptyScript", "Empty script should be removed", Level::Medium, "basic.in.haml", range(5, 0, 5, 0)),
            lint("HamlLint", "IdNames", "`id` attribute must be in lisp-case", Level::Medium, "basic.in.haml", range(2, 0, 2, 0)),
            lint("HamlLint", "RuboCop", "Couldn't process the file for linting. ArgumentError: comparison of Integer with nil failed", Level::High, "basic.in.haml", range(0, 0, 0, 0)),
            lint("HamlLint", "SpaceBeforeScript", "The - symbol should have one space separating it from code", Level::Medium, "basic.in.haml", range(5, 0, 5, 0)),
        ]
    );
}

fn mypy_message(line: u32, column: i32, message: &str, code: &str) -> MypyMessage {
    MypyMessage {
        file: "basic.in.py".to_string(),
        line,
        column,
        message: message.to_string(),
        code: Some(code.to_string()),
        severity: "error".to_string(),
    }
}

#[test]
fn mypy_parse() {
    let messages = vec![
        mypy_message(1, 0, "Library stubs not installed for \"google.protobuf.descriptor_pb2\"", "import-untyped"),
        mypy_message(1, 0, "Library stubs not installed for \"google.protobuf\"", "import-untyped"),
        mypy_message(13, 9, "Argument 1 to \"greeting\" has incompatible type \"int\"; expected \"str\"", "arg-type"),
        mypy_message(14, 9, "Argument 1 to \"greeting\" has incompatible type \"bytes\"; expected \"str\"", "arg-type"),
        mypy_message(15, 4, "\"printer\" does not return a value (it only ever returns None)", "func-returns-value"),
        mypy_message(16, 9, "Incompatible types in assignment (expression has type \"int\", variable has type \"str\")", "assignment"),
        mypy_message(23, -1, "The return type of a generator function should be \"Generator\" or one of its supertypes", "misc"),
    ];
    let issues = Mypy {}.parse("mypy", &messages);
    let expected: Vec<(u32, u32, &str)> = vec![
        (1, 1, "import-untyped"),
        (1, 1, "import-untyped"),
        (13, 10, "arg-type"),
        (14, 10, "arg-type"),
        (15, 5, "func-returns-value"),
        (16, 10, "assignment"),
        (23, 1, "misc"),
    ];
    assert_eq!(issues.len(), expected.len());
    for (issue, (line, column, rule)) in issues.iter().zip(expected) {
        assert_eq!(issue.tool, "mypy");
        assert_eq!(issue.rule_key, rule);
        assert_eq!(issue.level, Level::High);
        assert_eq!(issue.category, Category::Lint);
        let location = issue.location.as_ref().unwrap();
        assert_eq!(location.path, "basic.in.py");
        assert_eq!(location.range, range(line, column, 0, 0));
    }
    assert_eq!(issues[0].message, "Library stubs not installed for \"google.protobuf.descriptor_pb2\"");
}

#[test]
fn mypy_blank_code_and_levels() {
    let mut note = mypy_message(1, 2, "n", "  ");
    note.severity = "note".to_string();
    let mut warning = mypy_message(1, 2, "w", "x");
    warning.severity = "warning".to_string();
    let mut none = mypy_message(1, 2, "w", "x");
    none.code = None;
    let issues = Mypy {}.parse("mypy", &[note, warning, none]);
    assert_eq!(issues[0].rule_key, "mypy_issue");
    assert_eq!(issues[0].level, Level::Low);
    assert_eq!(issues[1].level, Level::Medium);
    assert_eq!(issues[2].rule_key, "mypy_issue");
}

#[test]
fn mypy_json_lines_and_columns() {
    assert_eq!(json_lines("\n  {\"a\":1}  \n\n{\"b\":2}\r\n"), vec!["{\"a\":1}", "{\"b\":2}"]);
    assert_eq!(normalize_column(-1), 1);
    assert_eq!(normalize_column(0), 1);
    assert_eq!(normalize_column(9), 10);
}

fn rd_position(line: u32, column: Option<u32>) -> RdjsonPosition {
    RdjsonPosition { line, column }
}

#[test]
fn rdjson_parse() {
    let code = |value: &str, url: &str| {
        Some(RdjsonCode {
            value: value.to_string(),
            url: Some(url.to_string()),
        })
    };
    let output = RdjsonOutput {
        severity: None,
        diagnostics: vec![
            RdjsonDiagnostic {
                message: "This variable foo is unused.".to_string(),
                location: RdjsonLocation {
                    path: "basic.in.ts".to_string(),
                    range: Some(RdjsonRange {
                        start: rd_position(6, Some(7)),
                        end: Some(rd_position(6, Some(10))),
                    }),
                },
                severity: None,
                code: code("lint/correctness/noUnusedVariables", "https://biomejs.dev/linter/rules/no-unused-variables"),
                suggestions: vec![RdjsonSuggestion {
                    range: RdjsonRange {
                        start: rd_position(6, Some(7)),
                        end: Some(rd_position(13, Some(9))),
                    },
                    text: "_foo".to_string(),
                }],
            },
            RdjsonDiagnostic {
                message: "This variable Foo is unused.".to_string(),
                location: RdjsonLocation {
                    path: "basic.in.ts".to_string(),
                    range: Some(RdjsonRange {
                        start: rd_position(16, Some(6)),
                        end: Some(rd_position(16, Some(9))),
                    }),
                },
                severity: None,
                code: code("lint/correctness/noUnusedVariables", "https://biomejs.dev/linter/rules/no-unused-variables"),
                suggestions: vec![],
            },
        ],
    };
    let issues = Rdjson {}.parse("biome", &output);
    assert_eq!(issues.len(), 2);
    let first = &issues[0];
    assert_eq!(first.tool, "biome");
    assert_eq!(first.rule_key, "lint/correctness/noUnusedVariables");
    assert_eq!(first.level, Level::Medium);
    assert_eq!(first.documentation_url, "https://biomejs.dev/linter/rules/no-unused-variables");
    assert_eq!(first.location.as_ref().unwrap().range, range(6, 7, 6, 10));
    assert_eq!(first.suggestions.len(), 1);
    let suggestion = &first.suggestions[0];
    assert!(suggestion.is_unsafe);
    assert_eq!(suggestion.source, SuggestionSource::Tool);
    assert_eq!(suggestion.replacements.len(), 1);
    assert_eq!(suggestion.replacements[0].data, "_foo");
    let location = suggestion.replacements[0].location.as_ref().unwrap();
    assert_eq!(location.path, "basic.in.ts");
    assert_eq!(location.range, range(6, 7, 13, 9));
    assert!(issues[1].suggestions.is_empty());
    assert_eq!(issues[1].location.as_ref().unwrap().range, range(16, 6, 16, 9));
}

#[test]
fn parse_severities() {
    let diagnostic = |message: &str, severity: Option<&str>, r: Option<RdjsonRange>| RdjsonDiagnostic {
        message: message.to_string(),
        location: RdjsonLocation {
            path: "a.ts".to_string(),
            range: r,
        },
        severity: severity.map(|s| s.to_string()),
        code: None,
        suggestions: vec![],
    };
    let output = RdjsonOutput {
        severity: Some("INFO".to_string()),
        diagnostics: vec![
            diagnostic("explicit severity", Some("ERROR"), Some(RdjsonRange { start: rd_position(1, Some(1)), end: None })),
            diagnostic("inherits result severity", None, Some(RdjsonRange { start: rd_position(2, Some(1)), end: None })),
            diagnostic("no range", None, None),
        ],
    };
    let issues = Rdjson {}.parse("example", &output);
    assert_eq!(
        issues,
        vec![
            lint("example", "", "explicit severity", Level::High, "a.ts", range(1, 1, 1, 1)),
            lint("example", "", "inherits result severity", Level::Low, "a.ts", range(2, 1, 2, 1)),
            lint("example", "", "no range", Level::Low, "a.ts", None),
        ]
    );
}

#[test]
fn reek_parse() {
    let smell = |context: &str, line: i32, message: &str, smell_type: &str, link: &str| ReekSmell {
        context: context.to_string(),
        lines: vec![line],
        message: message.to_string(),
        smell_type: smell_type.to_string(),
        source: "app/models/shipment.rb".to_string(),
        documentation_link: link.to_string(),
    };
    let smells = vec![
        smell("Shipment#referer", 13, "is a writable attribute", "Attribute", "https://github.com/troessner/reek/blob/v6.3.0/docs/Attribute.md"),
        smell("Shipment", 1, "has no descriptive comment", "IrresponsibleModule", "https://github.com/troessner/reek/blob/v6.3.0/docs/Irresponsible-Module.md"),
    ];
    let issues = Reek {}.parse("Reek", &smells);
    let mut first = lint("Reek", "Attribute", "Shipment#referer is a writable attribute", Level::Medium, "app/models/shipment.rb", range(13, 0, 0, 0));
    first.documentation_url = "https://github.com/troessner/reek/blob/v6.3.0/docs/Attribute.md".to_string();
    let mut second = lint("Reek", "IrresponsibleModule", "Shipment has no descriptive comment", Level::Medium, "app/models/shipment.rb", range(1, 0, 0, 0));
    second.documentation_url = "https://github.com/troessner/reek/blob/v6.3.0/docs/Irresponsible-Module.md".to_string();
    assert_eq!(issues, vec![first, second]);
}

#[test]
fn terraform_parse() {
    let output = TerraformOutput {
        diagnostics: vec![Diagnostic {
            severity: "error".to_string(),
            summary: "Invalid quoted type constraints".to_string(),
            range: Some(DiagnosticRange {
                filename: "aws.in.tf".to_string(),
                start: DiagnosticPosition { line: 2, column: 10 },
                end: DiagnosticPosition { line: 2, column: 15 },
            }),
        }],
    };
    let issues = Terraform {}.parse("terraform", &output);
    assert_eq!(
        issues,
        vec![lint("terraform", "", "Invalid quoted type constraints", Level::High, "aws.in.tf", range(2, 10, 2, 15))]
    );
}

#[test]
fn parse_missing_location() {
    let missing = || Diagnostic {
        severity: "error".to_string(),
        summary: "Missing required provider".to_string(),
        range: None,
    };
    let output = TerraformOutput {
        diagnostics: vec![missing(), missing()],
    };
    let issues = Terraform {}.parse("terraform", &output);
    assert_eq!(issues.len(), 2);
    for issue in issues {
        assert_eq!(issue.tool, "terraform");
        assert_eq!(issue.message, "Missing required provider");
        assert_eq!(issue.level, Level::High);
        assert_eq!(issue.location, None);
    }
}
