use language_list::next_language;

fn list(names: &[&str]) -> Vec<String> {
    names.iter().map(|name| String::from(*name)).collect()
}

#[test]
fn successor_of_the_middle_entry() {
    let languages = list(&["rust", "go", "typescript"]);
    assert_eq!(next_language(&languages, "go"), "typescript");
}

#[test]
fn successor_of_the_first_entry() {
    let languages = list(&["rust", "go", "typescript"]);
    assert_eq!(next_language(&languages, "rust"), "go");
}

#[test]
fn last_entry_stays_at_the_end() {
    let languages = list(&["rust", "go", "typescript"]);
    assert_eq!(next_language(&languages, "typescript"), "typescript");
}

#[test]
fn absent_entry_gives_the_last() {
    let languages = list(&["rust", "go", "typescript"]);
    assert_eq!(next_language(&languages, "python"), "typescript");
}

#[test]
fn single_entry_is_its_own_successor() {
    let languages = list(&["a"]);
    assert_eq!(next_language(&languages, "a"), "a");
}

#[test]
fn single_entry_list_with_absent_current() {
    let languages = list(&["a"]);
    assert_eq!(next_language(&languages, "b"), "a");
}

#[test]
fn first_match_wins() {
    let languages = list(&["a", "b", "a", "c"]);
    assert_eq!(next_language(&languages, "a"), "b");
}

#[test]
fn earlier_occurrence_overrides_the_one_at_the_end() {
    let languages = list(&["a", "b", "a"]);
    assert_eq!(next_language(&languages, "a"), "b");
}

#[test]
fn repeated_entry_follows_itself() {
    let languages = list(&["a", "a", "b"]);
    assert_eq!(next_language(&languages, "a"), "a");
}

#[test]
fn result_is_always_an_entry_of_the_list() {
    let languages = list(&["rust", "go", "typescript", "go", "zig"]);
    for current in ["rust", "go", "typescript", "zig", "python", ""] {
        let next = next_language(&languages, current);
        assert!(languages.iter().any(|language| language == next));
    }
}

#[test]
fn result_borrows_from_the_list() {
    let languages = list(&["rust", "go", "typescript"]);
    let next = next_language(&languages, "go");
    assert!(std::ptr::eq(next, languages[2].as_str()));
}

#[test]
fn entries_behind_the_successor_do_not_matter() {
    let short = list(&["x", "a", "b"]);
    let long = list(&["x", "a", "b", "a", "c", "x"]);
    assert_eq!(next_language(&short, "a"), next_language(&long, "a"));
    assert_eq!(next_language(&long, "a"), "b");
}

#[test]
fn comparison_is_exact() {
    let languages = list(&["Rust", "rust ", "rust", "go"]);
    assert_eq!(next_language(&languages, "rust"), "go");
    assert_eq!(next_language(&languages, "Rust"), "rust ");
    assert_eq!(next_language(&languages, "rus"), "go");
}

#[test]
fn names_beyond_ascii() {
    let languages = list(&["日本語", "français", "中文"]);
    assert_eq!(next_language(&languages, "日本語"), "français");
    assert_eq!(next_language(&languages, "français"), "中文");
    assert_eq!(next_language(&languages, "francais"), "中文");
}
