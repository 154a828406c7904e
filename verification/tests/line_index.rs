use qlty::line_index::FileIndex;

#[test]
fn test_matches_line_range_existing_file() {
    let mut index = FileIndex::new();
    let path = "foo.txt";

    // Insert line 3 for foo.txt (not a new file)
    index.insert_line(path, 3);

    // Should return true for a range that includes 3
    assert!(index.matches_line_range(path, 3..=0));

    // Should return false for a range that does not include 3
    assert!(!index.matches_line_range(path, 4..=6));

    // Should return false for a range that does not include 3
    assert!(!index.matches_line_range(path, 4..=0));
}

#[test]
fn inserted_line_is_found_by_any_range_holding_it() {
    let mut index = FileIndex::new();
    index.insert_line("a.rs", 10);
    assert!(index.matches_line_range("a.rs", 1..=10));
    assert!(index.matches_line_range("a.rs", 10..=20));
    assert!(!index.matches_line_range("a.rs", 11..=20));
    assert!(!index.matches_line_range("b.rs", 1..=20));
}

#[test]
fn new_file_matches_every_range() {
    let mut index = FileIndex::new();
    index.insert_file("new.rs");
    assert!(index.matches_path("new.rs"));
    assert!(index.matches_line_range("new.rs", 500..=600));
    index.insert_line("new.rs", 1);
    assert!(index.matches_line_range("new.rs", 500..=600));
}

#[test]
fn insert_file_keeps_an_existing_entry() {
    let mut index = FileIndex::new();
    index.insert_line("old.rs", 2);
    index.insert_file("old.rs");
    assert!(!index.matches_line_range("old.rs", 3..=9));
    assert!(index.matches_line_range("old.rs", 2..=2));
}

#[test]
fn matches_path_only_for_inserted_paths() {
    let mut index = FileIndex::new();
    assert!(!index.matches_path("x"));
    index.insert_line("x", 1);
    assert!(index.matches_path("x"));
    assert!(!index.matches_path("y"));
}

#[test]
fn paths_are_compared_by_components() {
    let mut index = FileIndex::new();
    index.insert_line("a/b", 4);
    assert!(index.matches_path("a/b/"));
    assert!(index.matches_path("a//b"));
    assert!(index.matches_path("a/./b"));
    assert!(index.matches_line_range("a//b", 1..=5));
    index.insert_line("a/./b", 9);
    assert!(index.matches_line_range("a/b", 9..=9));
    assert!(!index.matches_path("a/c"));
}

#[test]
fn first_recording_of_a_path_decides_whether_it_is_new() {
    let mut index = FileIndex::new();
    index.insert_file("n.rs");
    index.insert_line("n.rs/", 1);
    assert!(index.matches_line_range("n.rs", 100..=200));
    index.insert_line("l.rs", 5);
    index.insert_file("l.rs");
    assert!(!index.matches_line_range("l.rs", 6..=8));
    assert!(index.matches_line_range("l.rs", 5..=0));
}

#[test]
fn recording_a_line_twice_or_in_another_order_answers_alike() {
    let mut once = FileIndex::new();
    once.insert_line("p", 1);
    once.insert_line("q", 2);
    let mut twice = FileIndex::new();
    twice.insert_line("q", 2);
    twice.insert_line("p", 1);
    twice.insert_line("p", 1);
    for (path, line) in [("p", 1), ("p", 2), ("q", 1), ("q", 2), ("r", 1)] {
        assert_eq!(once.matches_line_range(path, line..=line), twice.matches_line_range(path, line..=line));
        assert_eq!(once.matches_path(path), twice.matches_path(path));
    }
}
