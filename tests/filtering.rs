use githist::controller::Input;
use githist::filter::{filtered_indices, matches_folded, name_matches_query};
use githist::git::branching::BranchInfo;
use githist::text::{has_prefix, parse_decimal};
use githist::App;

fn branch(name: &str, time: i64) -> BranchInfo {
    BranchInfo {
        branch_name: name.to_string(),
        last_commit_time: time,
        time_ago: String::new(),
        is_current: false,
        upstream_status: None,
    }
}

fn sample() -> Vec<BranchInfo> {
    vec![
        branch("Feature-Login", 5),
        branch("main", 4),
        branch("fix-feature", 3),
        branch("release", 2),
    ]
}

#[test]
fn filter_keeps_matching_subsequence_in_order() {
    let items = sample();
    assert_eq!(filtered_indices(&items, &"feat".to_string()), vec![0, 2]);
    assert_eq!(filtered_indices(&items, &"zzz".to_string()), Vec::<usize>::new());
}

#[test]
fn empty_query_keeps_everything() {
    let items = sample();
    assert_eq!(filtered_indices(&items, &String::new()), vec![0, 1, 2, 3]);
}

#[test]
fn filter_ignores_case_on_both_sides() {
    let items = sample();
    assert_eq!(filtered_indices(&items, &"LOGIN".to_string()), vec![0]);
    assert!(name_matches_query("MAIN", "main"));
    assert!(name_matches_query("ain", "MaIn"));
    assert!(!name_matches_query("mains", "main"));
}

#[test]
fn folded_match_is_plain_substring() {
    assert!(matches_folded("ea", "feature"));
    assert!(matches_folded("", "x"));
    assert!(!matches_folded("Ea", "feature"));
}

#[test]
fn filter_change_resets_cursor() {
    let mut app = App::new(sample());
    app.select_first_item_if_none();
    app.handle_key(Input::End, 5);
    assert_eq!(app.items.selected, Some(3));
    app.handle_key(Input::Char('/'), 5);
    app.handle_key(Input::Char('f'), 5);
    assert_eq!(app.items.filtered, vec![0, 2]);
    assert_eq!(app.items.selected, Some(0));
    app.handle_key(Input::Char('q'), 5);
    assert_eq!(app.items.filtered, Vec::<usize>::new());
    assert_eq!(app.items.selected, None);
    app.handle_key(Input::Backspace, 5);
    assert_eq!(app.filter, "f");
    assert_eq!(app.items.selected, Some(0));
}

#[test]
fn backspace_on_empty_query_leaves_editing() {
    let mut app = App::new(sample());
    app.handle_key(Input::Char('/'), 5);
    assert!(app.editing);
    app.handle_key(Input::Char('m'), 5);
    app.handle_key(Input::Backspace, 5);
    assert_eq!(app.filter, "");
    assert!(app.editing);
    app.handle_key(Input::Backspace, 5);
    assert!(!app.editing);
    assert_eq!(app.filter, "");
}

#[test]
fn escape_commits_query() {
    let mut app = App::new(sample());
    app.handle_key(Input::Char('/'), 5);
    app.handle_key(Input::Char('r'), 5);
    app.handle_key(Input::Escape, 5);
    assert!(!app.editing);
    assert_eq!(app.filter, "r");
    assert_eq!(app.items.filtered, vec![0, 2, 3]);
    // keys are navigation again once editing ends
    app.handle_key(Input::Down, 5);
    assert_eq!(app.items.selected, Some(1));
}

#[test]
fn update_with_status_clears_query() {
    let mut app = App::new(sample());
    app.handle_key(Input::Char('/'), 5);
    app.handle_key(Input::Char('z'), 5);
    assert_eq!(app.items.selected, None);
    app.update_with_status("hello".to_string());
    assert_eq!(app.filter, "");
    assert_eq!(app.items.filtered, vec![0, 1, 2, 3]);
    assert_eq!(app.items.selected, Some(0));
    assert_eq!(app.pending, "hello");
}

#[test]
fn set_branches_reapplies_query() {
    let mut app = App::new(sample());
    for key in [Input::Char('/'), Input::Char('i'), Input::Enter] {
        app.handle_key(key, 5);
    }
    assert_eq!(app.items.filtered, vec![0, 1, 2]);
    app.set_branches(vec![branch("alpha", 2), branch("mint", 1)]);
    assert_eq!(app.items.filtered, vec![1]);
    assert_eq!(app.items.selected, Some(0));
}

#[test]
fn decimal_parsing() {
    assert_eq!(parse_decimal("0"), Some(0));
    assert_eq!(parse_decimal("18446744073709551615"), Some(u64::MAX));
    assert_eq!(parse_decimal("18446744073709551616"), None);
    assert_eq!(parse_decimal(""), None);
    assert_eq!(parse_decimal("4a"), None);
    assert!(has_prefix("--tick", "--"));
    assert!(!has_prefix("-", "--"));
}
