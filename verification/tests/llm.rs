use qlty::analysis::{Category, Issue, Level, Location, Suggestion, SuggestionSource};
use qlty::llm::{batch_bounds, with_suggestions, Fixer};

fn issue(path: Option<&str>) -> Issue {
    Issue {
        tool: "eslint".to_string(),
        rule_key: "no-unused".to_string(),
        message: "unused".to_string(),
        level: Level::Low,
        category: Category::Lint,
        documentation_url: String::new(),
        location: path.map(|p| Location { path: p.to_string(), range: None }),
        suggestions: vec![],
    }
}

#[test]
fn common_path_is_the_first_path() {
    let f = Fixer::new(false);
    assert!(!f.is_unsafe());
    assert_eq!(f.common_path(&[issue(None), issue(Some("a.js")), issue(Some("b.js"))]), Some("a.js".to_string()));
    assert_eq!(f.common_path(&[issue(None)]), None);
    assert_eq!(f.fix_request_path(&[issue(None)]).unwrap_err(), "Issues have no path");
}

#[test]
fn files_get_at_most_thirty_batches() {
    let mut f = Fixer::new(true);
    let batch = vec![issue(Some("a.js"))];
    for _ in 0..30 {
        assert!(!f.reached_max_fixes(&batch));
        f.update_max_fixes(&batch);
    }
    assert!(f.reached_max_fixes(&batch));
    assert!(!f.reached_max_fixes(&[issue(Some("b.js"))]));
}

#[test]
fn runs_get_at_most_five_hundred_fixes() {
    let mut f = Fixer::new(false);
    let big: Vec<Issue> = (0..499).map(|_| issue(Some("a.js"))).collect();
    assert!(!f.reached_max_fixes(&big));
    f.update_max_fixes(&big);
    assert!(f.reached_max_fixes(&[issue(Some("c.js"))]));
    let mut g = Fixer::new(false);
    let too_many: Vec<Issue> = (0..500).map(|_| issue(Some("a.js"))).collect();
    assert!(g.reached_max_fixes(&too_many));
}

#[test]
fn failed_fixes_drop_the_batch() {
    let mut f = Fixer::new(false);
    assert!(f.after_fix_attempt(Err("boom".to_string())).is_none());
    let fixed = f.after_fix_attempt(Ok(vec![issue(Some("a.js"))])).unwrap();
    assert_eq!(fixed.len(), 1);
}

#[test]
fn suggestions_go_to_their_issues() {
    let s = Suggestion { source: SuggestionSource::Llm, is_unsafe: false, replacements: vec![] };
    let issues = vec![issue(Some("a.js")), issue(Some("a.js"))];
    let out = with_suggestions(&issues, vec![vec![s.clone()], vec![]]);
    assert_eq!(out.len(), 2);
    assert_eq!(out[0].suggestions, vec![s.clone()]);
    assert!(out[1].suggestions.is_empty());
    let short = with_suggestions(&issues, vec![vec![s]]);
    assert_eq!(short.len(), 1);
}

#[test]
fn issues_are_sent_in_batches_of_fifteen() {
    assert_eq!(batch_bounds(0), vec![]);
    assert_eq!(batch_bounds(15), vec![(0, 15)]);
    assert_eq!(batch_bounds(31), vec![(0, 15), (15, 30), (30, 31)]);
}
