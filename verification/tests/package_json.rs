use qlty::tool::node::package_json::{
    merge_json, package_file_install_arguments, parse_pnpm_workspace_globs, prepare_package_json,
    wants_lock_file, workspace_glob_base, Json,
};

/// Reads a small JSON text: objects, arrays, strings without escapes,
/// numbers, booleans and null. Keys keep their order.
fn parse(text: &str) -> Json {
    let chars: Vec<char> = text.chars().collect();
    let mut pos = 0;
    let v = value(&chars, &mut pos);
    skip_ws(&chars, &mut pos);
    assert_eq!(pos, chars.len(), "trailing text in {text}");
    v
}

fn skip_ws(c: &[char], pos: &mut usize) {
    while *pos < c.len() && c[*pos].is_whitespace() {
        *pos += 1;
    }
}

fn string(c: &[char], pos: &mut usize) -> String {
    assert_eq!(c[*pos], '"');
    *pos += 1;
    let start = *pos;
    while c[*pos] != '"' {
        *pos += 1;
    }
    let s: String = c[start..*pos].iter().collect();
    *pos += 1;
    s
}

fn value(c: &[char], pos: &mut usize) -> Json {
    skip_ws(c, pos);
    match c[*pos] {
        '{' => {
            *pos += 1;
            let mut entries = vec![];
            skip_ws(c, pos);
            if c[*pos] == '}' {
                *pos += 1;
                return Json::Object(entries);
            }
            loop {
                skip_ws(c, pos);
                let k = string(c, pos);
                skip_ws(c, pos);
                assert_eq!(c[*pos], ':');
                *pos += 1;
                let v = value(c, pos);
                entries.push((k, v));
                skip_ws(c, pos);
                if c[*pos] == ',' {
                    *pos += 1;
                } else {
                    assert_eq!(c[*pos], '}');
                    *pos += 1;
                    return Json::Object(entries);
                }
            }
        }
        '[' => {
            *pos += 1;
            let mut items = vec![];
            skip_ws(c, pos);
            if c[*pos] == ']' {
                *pos += 1;
                return Json::Array(items);
            }
            loop {
                items.push(value(c, pos));
                skip_ws(c, pos);
                if c[*pos] == ',' {
                    *pos += 1;
                } else {
                    assert_eq!(c[*pos], ']');
                    *pos += 1;
                    return Json::Array(items);
                }
            }
        }
        '"' => Json::String(string(c, pos)),
        't' => {
            *pos += 4;
            Json::Bool(true)
        }
        'f' => {
            *pos += 5;
            Json::Bool(false)
        }
        'n' => {
            *pos += 4;
            Json::Null
        }
        _ => {
            let start = *pos;
            while *pos < c.len() && (c[*pos].is_ascii_digit() || "-+.eE".contains(c[*pos])) {
                *pos += 1;
            }
            Json::Number(c[start..*pos].iter().collect())
        }
    }
}

/// Writes a JSON value compactly, keys in their order.
fn show(j: &Json) -> String {
    match j {
        Json::Null => "null".to_string(),
        Json::Bool(b) => b.to_string(),
        Json::Number(n) => n.clone(),
        Json::String(s) => format!("\"{s}\""),
        Json::Array(v) => format!("[{}]", v.iter().map(show).collect::<Vec<_>>().join(",")),
        Json::Object(e) => format!(
            "{{{}}}",
            e.iter()
                .map(|(k, v)| format!("\"{k}\":{}", show(v)))
                .collect::<Vec<_>>()
                .join(",")
        ),
    }
}

#[test]
fn merge_json_values() {
    let tests = [
        (r#"{}"#, r#"{"a":1}"#, r#"{"a":1}"#),
        (r#"{"a":1}"#, r#"{}"#, r#"{"a":1}"#),
        (r#"{"a":1}"#, r#"{"a":2}"#, r#"{"a":2}"#),
        (r#"{"a":1}"#, r#"{"b":2}"#, r#"{"a":1,"b":2}"#),
        (r#"{"a":1}"#, r#"{"a":2,"b":2}"#, r#"{"a":2,"b":2}"#),
        (r#"{"a":[1]}"#, r#"{"a":[2]}"#, r#"{"a":[2]}"#),
        (r#"{"a":{"b":1}}"#, r#"{"a":{"b":2,"c":2}}"#, r#"{"a":{"b":2,"c":2}}"#),
    ];
    for (a, b, expected) in tests.iter() {
        let mut a = parse(a);
        merge_json(&mut a, parse(b));
        assert_eq!(show(&a), *expected);
    }
}

#[test]
fn merging_keeps_keys_in_place_and_replaces_non_objects() {
    let mut a = parse(r#"{"x":1,"y":{"p":1,"q":2},"z":3}"#);
    merge_json(&mut a, parse(r#"{"w":0,"y":{"q":5,"r":6}}"#));
    assert_eq!(show(&a), r#"{"x":1,"y":{"p":1,"q":5,"r":6},"z":3,"w":0}"#);
    let mut b = parse(r#"[1,2]"#);
    merge_json(&mut b, parse(r#"{"a":1}"#));
    assert_eq!(show(&b), r#"{"a":1}"#);
    let mut c = parse(r#"{"a":1}"#);
    merge_json(&mut c, Json::Null);
    assert_eq!(show(&c), "null");
}

const USER_PACKAGE: &str = r#"{
    "dependencies": {
        "eslint": "7.0.0",
        "@types/node": "13.0.0",
        "typescript": "3.0.0"
    },
    "devDependencies": {
        "eslint": "8.0.0",
        "@types/node": "14.0.0",
        "typescript": "4.0.0",
        "other": "1.0.0"
    },
    "scripts": {
        "test": "echo hello && exit 1"
    }
}"#;

const ONLY_DEV_PACKAGE: &str = r#"{
    "devDependencies": {
        "eslint": "8.0.0",
        "@types/node": "14.0.0",
        "typescript": "4.0.0",
        "other": "1.0.0"
    },
    "scripts": {
        "test": "echo hello && exit 1"
    }
}"#;

fn prepared(user: &str, filters: &[&str]) -> String {
    let filters: Vec<String> = filters.iter().map(|s| s.to_string()).collect();
    let staged = parse(r#"{"dependencies":{"eslint":"1.0.0"}}"#);
    show(&prepare_package_json(parse(user), Some(staged), "eslint", &filters, Some("/repo"), &[]))
}

#[test]
fn update_package_json() {
    assert_eq!(
        prepared(USER_PACKAGE, &[]),
        r#"{"dependencies":{"eslint":"1.0.0","@types/node":"14.0.0","typescript":"4.0.0","other":"1.0.0"}}"#
    );
    assert_eq!(
        prepared(USER_PACKAGE, &["eslint", "type"]),
        r#"{"dependencies":{"eslint":"1.0.0","@types/node":"14.0.0","typescript":"4.0.0"}}"#
    );
    assert_eq!(
        prepared(USER_PACKAGE, &["other"]),
        r#"{"dependencies":{"eslint":"1.0.0","other":"1.0.0"}}"#
    );
}

#[test]
fn test_update_package_json_only_dev_deps() {
    assert_eq!(
        prepared(ONLY_DEV_PACKAGE, &[]),
        r#"{"dependencies":{"eslint":"1.0.0","@types/node":"14.0.0","typescript":"4.0.0","other":"1.0.0"}}"#
    );
    assert_eq!(
        prepared(ONLY_DEV_PACKAGE, &["eslint", "type"]),
        r#"{"dependencies":{"eslint":"1.0.0","@types/node":"14.0.0","typescript":"4.0.0"}}"#
    );
    assert_eq!(
        prepared(ONLY_DEV_PACKAGE, &["other"]),
        r#"{"dependencies":{"eslint":"1.0.0","other":"1.0.0"}}"#
    );
}

#[test]
fn test_update_package_file_based_dependency() {
    let user = r#"{
        "devDependencies": {
            "eslint": "8.0.0",
            "@types/node": "14.0.0",
            "typescript": "4.0.0",
            "other": "1.0.0",
            "eslint-plugin": "file:packages/eslint-plugin"
        },
        "scripts": {
            "test": "echo hello && exit 1"
        }
    }"#;
    let staged = parse(r#"{"dependencies":{"eslint":"1.0.0"}}"#);
    let r = prepare_package_json(
        parse(user),
        Some(staged),
        "eslint",
        &["eslint".to_string()],
        Some("/Some/Path/to"),
        &[],
    );
    assert_eq!(
        show(&r),
        r#"{"dependencies":{"eslint":"1.0.0","eslint-plugin":"file:/Some/Path/to/packages/eslint-plugin"}}"#
    );
}

#[test]
fn test_update_workspace_protocol_dependency() {
    let user = r#"{
        "devDependencies": {
            "knip": "5.88.1",
            "@acme/vitest-config": "workspace:*"
        }
    }"#;
    let staged = parse(r#"{"dependencies":{"knip":"5.88.1"}}"#);
    let workspace = vec![(
        "@acme/vitest-config".to_string(),
        "/repo/packages/vitest-config".to_string(),
    )];
    let r = prepare_package_json(
        parse(user),
        Some(staged),
        "knip",
        &["knip".to_string(), "acme".to_string()],
        Some("/repo/apps/api"),
        &workspace,
    );
    assert_eq!(
        show(&r),
        r#"{"dependencies":{"knip":"5.88.1","@acme/vitest-config":"file:/repo/packages/vitest-config"}}"#
    );
}

#[test]
fn unknown_workspace_packages_and_other_values_stay() {
    let user = r#"{"dependencies":{"a":"workspace:*","b":1,"c":"^1.0.0"}}"#;
    let r = prepare_package_json(parse(user), None, "a", &[], None, &[]);
    assert_eq!(show(&r), user);
}

#[test]
fn packages_that_are_not_objects_pass_through() {
    let r = prepare_package_json(parse("[1]"), None, "a", &[], None, &[]);
    assert_eq!(show(&r), "{}");
    let r = prepare_package_json(parse(r#"{"name":"x"}"#), Some(Json::Null), "a", &[], None, &[]);
    assert_eq!(show(&r), "null");
}

#[test]
fn pnpm_workspace_globs_are_listed_under_packages() {
    assert_eq!(
        parse_pnpm_workspace_globs("packages:\n  - 'packages/**'\n  - \"apps/*\"\n\n  # note\n  - tools\nother:\n  - no\n"),
        vec!["packages/**", "apps/*", "tools"]
    );
    assert_eq!(parse_pnpm_workspace_globs("name: x\n- a\n"), Vec::<String>::new());
    assert_eq!(parse_pnpm_workspace_globs("packages:\n  - ''\n  - b"), vec!["b"]);
}

#[test]
fn workspace_glob_bases_drop_wildcards() {
    assert_eq!(workspace_glob_base("packages/**"), "packages");
    assert_eq!(workspace_glob_base("apps/*"), "apps");
    assert_eq!(workspace_glob_base("tools"), "tools");
    assert_eq!(workspace_glob_base("a/**/*"), "a/**");
}

#[test]
fn lock_files_are_staged_only_without_filters() {
    assert!(wants_lock_file(&[]));
    assert!(!wants_lock_file(&["eslint".to_string()]));
    assert_eq!(package_file_install_arguments(true), vec!["install", "--force"]);
    assert_eq!(
        package_file_install_arguments(false),
        vec!["install", "--force", "--no-package-lock"]
    );
}
