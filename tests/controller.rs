use githist::controller::{Action, DeleteOutcome, Input};
use githist::git::branching::BranchInfo;
use githist::App;

fn branch(name: &str, time: i64, current: bool) -> BranchInfo {
    BranchInfo {
        branch_name: name.to_string(),
        last_commit_time: time,
        time_ago: String::new(),
        is_current: current,
        upstream_status: None,
    }
}

fn app() -> App {
    let mut app = App::new(vec![
        branch("topic", 30, false),
        branch("main", 20, true),
        branch("old", 10, false),
    ]);
    app.select_first_item_if_none();
    app
}

#[test]
fn deleting_current_branch_is_refused() {
    let mut app = app();
    app.handle_key(Input::Down, 5);
    app.handle_key(Input::Char('D'), 5);
    assert_eq!(app.delete_confirmation, None);
    assert_eq!(app.pending, "can't delete the current branch: main");
}

#[test]
fn delete_without_selection_reports() {
    let mut app = app();
    app.handle_key(Input::Left, 5);
    assert_eq!(app.items.selected, None);
    app.handle_key(Input::Char('D'), 5);
    assert_eq!(app.delete_confirmation, None);
    assert_eq!(app.pending, "no selection, nothing to delete!");
    assert_eq!(app.get_selected_branch_name().is_err(), true);
}

#[test]
fn delete_request_asks_for_confirmation() {
    let mut app = app();
    app.handle_key(Input::Char('D'), 5);
    assert_eq!(app.delete_confirmation, Some("topic".to_string()));
    assert_eq!(app.pending, "confirm deleting branch topic? press Y to delete or N to cancel");
}

#[test]
fn confirmation_swallows_other_keys() {
    let mut app = app();
    app.handle_key(Input::Char('D'), 5);
    assert_eq!(app.handle_key(Input::Down, 5), Action::Stay);
    assert_eq!(app.handle_key(Input::Char('q'), 5), Action::Stay);
    assert_eq!(app.handle_key(Input::Enter, 5), Action::Stay);
    assert_eq!(app.items.selected, Some(0));
    assert_eq!(app.delete_confirmation, Some("topic".to_string()));
}

#[test]
fn cancel_clears_confirmation_and_status() {
    for key in [Input::Char('n'), Input::Char('N'), Input::Escape, Input::Backspace] {
        let mut app = app();
        app.handle_key(Input::Char('D'), 5);
        assert_eq!(app.handle_key(key, 5), Action::Stay);
        assert_eq!(app.delete_confirmation, None);
        assert_eq!(app.pending, "");
        assert_eq!(app.items.items.len(), 3);
    }
}

#[test]
fn confirming_ends_idle_when_delete_fails() {
    let mut app = app();
    app.handle_key(Input::Char('D'), 5);
    assert_eq!(app.handle_key(Input::Char('Y'), 5), Action::Delete("topic".to_string()));
    assert_eq!(app.delete_confirmation, None);
    app.finish_delete(&"topic".to_string(), DeleteOutcome::Failed("locked".to_string()));
    assert_eq!(app.delete_confirmation, None);
    assert_eq!(app.pending, "couldn't delete branch topic: locked");
    assert_eq!(app.items.items.len(), 3);
    assert_eq!(app.items.selected, Some(0));
}

#[test]
fn confirming_ends_idle_when_refresh_fails() {
    let mut app = app();
    app.handle_key(Input::Char('D'), 5);
    app.handle_key(Input::Char('y'), 5);
    app.finish_delete(&"topic".to_string(), DeleteOutcome::RefreshFailed("gone".to_string()));
    assert_eq!(app.delete_confirmation, None);
    assert_eq!(app.pending, "deleted branch but failed to refresh list: gone");
    assert_eq!(app.items.items.len(), 3);
}

#[test]
fn delete_keeps_cursor_position_when_it_fits() {
    let mut app = app();
    app.handle_key(Input::Down, 5);
    app.finish_delete(
        &"topic".to_string(),
        DeleteOutcome::Deleted(vec![branch("main", 20, true), branch("old", 10, false)]),
    );
    assert_eq!(app.items.selected, Some(1));
    assert_eq!(app.pending, "deleted branch: topic");
}

#[test]
fn delete_refresh_to_empty_clears_cursor() {
    let mut app = app();
    app.finish_delete(&"topic".to_string(), DeleteOutcome::Deleted(vec![]));
    assert_eq!(app.items.selected, None);
    assert!(app.items.filtered.is_empty());
}

#[test]
fn switching_hands_over_branch_name() {
    let mut app = app();
    let action = app.handle_key(Input::Enter, 5);
    assert_eq!(action, Action::Switch("topic".to_string()));
    assert_eq!(app.pending, "switching to branch: topic");
    app.switch_failed(&"conflicts".to_string());
    assert_eq!(app.pending, "couldn't change branch. reason: conflicts");
}

#[test]
fn switching_without_selection_reports() {
    let mut app = app();
    app.items.unselect();
    assert_eq!(app.handle_key(Input::Enter, 5), Action::Stay);
    assert_eq!(app.pending, "no selection, nothing to do!");
}

#[test]
fn quit_and_tick() {
    let mut app = app();
    assert_eq!(app.handle_key(Input::Tick, 5), Action::Stay);
    assert_eq!(app.items.selected, Some(0));
    assert_eq!(app.handle_key(Input::Char('q'), 5), Action::Quit);
    assert_eq!(app.handle_key(Input::Char('Q'), 5), Action::Quit);
}

#[test]
fn starting_filter_clears_status() {
    let mut app = app();
    app.update_with_status_preserve_filter("something".to_string());
    app.handle_key(Input::Char('/'), 5);
    assert!(app.editing);
    assert_eq!(app.pending, "");
    assert_eq!(app.handle_key(Input::Char('q'), 5), Action::Stay);
    assert_eq!(app.filter, "q");
}

#[test]
fn selected_name_and_status_helpers() {
    let mut app = app();
    assert_eq!(app.get_selected_branch_name().ok(), Some("topic".to_string()));
    app.update_with_status_preserve_filter("x".to_string());
    assert_eq!(app.pending, "x");
    app.clear_pending_status();
    assert_eq!(app.pending, "");
}

#[test]
fn select_first_only_when_none() {
    let mut app = app();
    app.handle_key(Input::End, 5);
    app.select_first_item_if_none();
    assert_eq!(app.items.selected, Some(2));
    let mut empty = App::new(vec![]);
    empty.select_first_item_if_none();
    assert_eq!(empty.items.selected, None);
}
