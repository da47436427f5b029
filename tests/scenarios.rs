use githist::controller::{Action, DeleteOutcome, Input};
use githist::git::branching::{sort_by_recency, BranchInfo};
use githist::App;

fn branch(name: &str, time: i64, current: bool) -> BranchInfo {
    BranchInfo {
        branch_name: name.to_string(),
        last_commit_time: time,
        time_ago: String::new(),
        is_current: current,
        upstream_status: None,
    }
}

fn names(app: &App) -> Vec<String> {
    app.items
        .filtered
        .iter()
        .map(|&i| app.items.items[i].branch_name.clone())
        .collect()
}

#[test]
fn filter_delete_and_refresh_walkthrough() {
    let listed = vec![
        branch("main", 100, true),
        branch("feature-x", 200, false),
        branch("feature-y", 50, false),
    ];
    let sorted = sort_by_recency(listed);
    let order: Vec<&str> = sorted.iter().map(|b| b.branch_name.as_str()).collect();
    assert_eq!(order, vec!["feature-x", "main", "feature-y"]);

    let mut app = App::new(sorted);
    app.select_first_item_if_none();
    for key in [Input::Char('/'), Input::Char('f'), Input::Char('e'), Input::Enter] {
        assert_eq!(app.handle_key(key, 10), Action::Stay);
    }
    assert_eq!(app.filter, "fe");
    assert_eq!(names(&app), vec!["feature-x", "feature-y"]);
    assert_eq!(app.items.selected, Some(0));

    app.handle_key(Input::Down, 10);
    assert_eq!(app.items.selected, Some(1));

    app.handle_key(Input::Char('D'), 10);
    assert_eq!(app.delete_confirmation, Some("feature-y".to_string()));

    let action = app.handle_key(Input::Char('y'), 10);
    assert_eq!(action, Action::Delete("feature-y".to_string()));
    assert_eq!(app.delete_confirmation, None);

    let refreshed = sort_by_recency(vec![branch("main", 100, true), branch("feature-x", 200, false)]);
    app.finish_delete(&"feature-y".to_string(), DeleteOutcome::Deleted(refreshed));
    let full: Vec<&str> = app.items.items.iter().map(|b| b.branch_name.as_str()).collect();
    assert_eq!(full, vec!["feature-x", "main"]);
    assert_eq!(app.filter, "fe");
    assert_eq!(names(&app), vec!["feature-x"]);
    assert_eq!(app.items.selected, Some(0));
    assert_eq!(app.pending, "deleted branch: feature-y");
}

#[test]
fn switching_to_current_branch_stays_in_loop() {
    let mut app = App::new(vec![branch("main", 100, true), branch("dev", 50, false)]);
    app.select_first_item_if_none();
    let action = app.handle_key(Input::Enter, 10);
    assert_eq!(action, Action::Stay);
    assert_eq!(app.pending, "already on branch: main");
}

#[test]
fn page_down_is_clamped_to_last_item() {
    let mut app = App::new(vec![
        branch("a", 3, false),
        branch("b", 2, false),
        branch("c", 1, true),
    ]);
    app.select_first_item_if_none();
    assert_eq!(app.items.selected, Some(0));
    app.items.page_down(10);
    assert_eq!(app.items.selected, Some(2));
}
