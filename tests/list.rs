use githist::controller::Input;
use githist::git::branching::BranchInfo;
use githist::{App, StatefulList};

fn branch(name: &str, time: i64) -> BranchInfo {
    BranchInfo {
        branch_name: name.to_string(),
        last_commit_time: time,
        time_ago: String::new(),
        is_current: false,
        upstream_status: None,
    }
}

fn three() -> StatefulList {
    let mut list = StatefulList::with_items(vec![branch("a", 3), branch("b", 2), branch("c", 1)]);
    list.selected = Some(0);
    list
}

#[test]
fn with_items_shows_everything_unselected() {
    let list = StatefulList::with_items(vec![branch("a", 3), branch("b", 2)]);
    assert_eq!(list.filtered, vec![0, 1]);
    assert_eq!(list.selected, None);
}

#[test]
fn next_wraps_after_len_steps() {
    let mut list = three();
    list.selected = Some(1);
    list.next();
    assert_eq!(list.selected, Some(2));
    list.next();
    assert_eq!(list.selected, Some(0));
    list.next();
    assert_eq!(list.selected, Some(1));
}

#[test]
fn previous_wraps_to_last_shown() {
    let mut list = three();
    list.previous();
    assert_eq!(list.selected, Some(2));
    list.previous();
    assert_eq!(list.selected, Some(1));
}

#[test]
fn previous_wraps_within_filtered_view() {
    let mut app = App::new(vec![branch("ab", 3), branch("cd", 2), branch("ax", 1)]);
    for key in [Input::Char('/'), Input::Char('a'), Input::Enter] {
        app.handle_key(key, 5);
    }
    assert_eq!(app.items.filtered, vec![0, 2]);
    app.handle_key(Input::Up, 5);
    assert_eq!(app.items.selected, Some(1));
}

#[test]
fn navigation_without_selection_selects_first() {
    let mut list = three();
    list.selected = None;
    list.previous();
    assert_eq!(list.selected, Some(0));
    list.selected = None;
    list.page_down(2);
    assert_eq!(list.selected, Some(0));
}

#[test]
fn navigation_on_empty_view_does_nothing() {
    let mut list = StatefulList::with_items(vec![]);
    list.next();
    list.previous();
    list.page_down(3);
    list.page_up(3);
    list.go_to_first();
    list.go_to_last();
    assert_eq!(list.selected, None);
}

#[test]
fn page_moves_clamp_at_both_ends() {
    let mut list = three();
    list.page_down(1);
    assert_eq!(list.selected, Some(1));
    list.page_up(5);
    assert_eq!(list.selected, Some(0));
    list.selected = Some(2);
    list.page_up(1);
    assert_eq!(list.selected, Some(1));
}

#[test]
fn first_last_and_unselect() {
    let mut list = three();
    list.go_to_last();
    assert_eq!(list.selected, Some(2));
    list.go_to_first();
    assert_eq!(list.selected, Some(0));
    list.unselect();
    assert_eq!(list.selected, None);
}

#[test]
fn selected_item_follows_filtered_positions() {
    let mut list = StatefulList::with_items(vec![branch("a", 3), branch("b", 2), branch("c", 1)]);
    assert!(list.selected_item().is_none());
    list.filtered = vec![0, 2];
    list.selected = Some(1);
    assert_eq!(list.selected_item().map(|b| b.branch_name.as_str()), Some("c"));
}
