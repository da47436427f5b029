//! The controller as a state machine over plain values: what one key does to
//! the selection, the filter, the delete confirmation and the status line, and
//! which request it hands to the repository.
use vstd::prelude::*;
use crate::filter::matching_indices;
use crate::git::branching::BranchInfo;
use crate::list::{paged_down, paged_up, wrap_next, wrap_previous};

verus! {

/// A key as the controller sees it. `Tick` is the end of a wait with no key.
#[derive(Clone, Copy, Debug, PartialEq, Eq)]
pub enum Input {
    Char(char),
    Enter,
    Escape,
    Backspace,
    Up,
    Down,
    Left,
    Right,
    Home,
    End,
    PageUp,
    PageDown,
    Tick,
    Other,
}

/// What the caller is to do after a key.
#[derive(Debug, PartialEq, Eq)]
pub enum Action {
    /// Redraw and wait for the next key.
    Stay,
    /// Leave.
    Quit,
    /// Check out the named branch, then leave; report a failure with
    /// `App::switch_failed`.
    Switch(String),
    /// Delete the named branch, list the branches again, and report with
    /// `App::finish_delete`.
    Delete(String),
}

/// `Action` over plain values.
pub enum ActionModel {
    Stay,
    Quit,
    Switch(Seq<char>),
    Delete(Seq<char>),
}

impl View for Action {
    type V = ActionModel;

    open spec fn view(&self) -> ActionModel {
        match self {
            Action::Stay => ActionModel::Stay,
            Action::Quit => ActionModel::Quit,
            Action::Switch(n) => ActionModel::Switch(n@),
            Action::Delete(n) => ActionModel::Delete(n@),
        }
    }
}

/// What came of a confirmed delete.
pub enum DeleteOutcome {
    /// The branch is gone; these are the branches listed afterwards.
    Deleted(Vec<BranchInfo>),
    /// The branch is gone, but listing the branches again failed.
    RefreshFailed(String),
    /// The branch could not be deleted.
    Failed(String),
}

/// `DeleteOutcome` over plain values.
pub enum DeleteOutcomeModel {
    Deleted(Seq<BranchInfo>),
    RefreshFailed(Seq<char>),
    Failed(Seq<char>),
}

impl View for DeleteOutcome {
    type V = DeleteOutcomeModel;

    open spec fn view(&self) -> DeleteOutcomeModel {
        match self {
            DeleteOutcome::Deleted(v) => DeleteOutcomeModel::Deleted(v@),
            DeleteOutcome::RefreshFailed(e) => DeleteOutcomeModel::RefreshFailed(e@),
            DeleteOutcome::Failed(e) => DeleteOutcomeModel::Failed(e@),
        }
    }
}

/// The controller's whole state.
#[verifier::ext_equal]
pub struct AppModel {
    /// Every branch, newest first.
    pub full: Seq<BranchInfo>,
    /// The filter query.
    pub filter: Seq<char>,
    /// Whether keys are being typed into the query.
    pub editing: bool,
    /// Position of the cursor among the branches shown.
    pub selected: Option<int>,
    /// The status line.
    pub status: Seq<char>,
    /// The branch awaiting a yes or no before it is deleted.
    pub confirmation: Option<Seq<char>>,
}

pub open spec fn no_selection_to_switch_message() -> Seq<char> {
    "no selection, nothing to do!"@
}

pub open spec fn no_selection_to_delete_message() -> Seq<char> {
    "no selection, nothing to delete!"@
}

pub open spec fn already_on_message(name: Seq<char>) -> Seq<char> {
    "already on branch: "@ + name
}

pub open spec fn switching_message(name: Seq<char>) -> Seq<char> {
    "switching to branch: "@ + name
}

pub open spec fn current_not_deleted_message(name: Seq<char>) -> Seq<char> {
    "can't delete the current branch: "@ + name
}

pub open spec fn confirm_delete_message(name: Seq<char>) -> Seq<char> {
    "confirm deleting branch "@ + name + "? press Y to delete or N to cancel"@
}

pub open spec fn deleted_message(name: Seq<char>) -> Seq<char> {
    "deleted branch: "@ + name
}

pub open spec fn refresh_failed_message(error: Seq<char>) -> Seq<char> {
    "deleted branch but failed to refresh list: "@ + error
}

pub open spec fn delete_failed_message(name: Seq<char>, error: Seq<char>) -> Seq<char> {
    "couldn't delete branch "@ + name + ": "@ + error
}

pub open spec fn switch_failed_message(error: Seq<char>) -> Seq<char> {
    "couldn't change branch. reason: "@ + error
}

/// The cursor that a filter change leaves: the first branch shown, or none.
pub open spec fn first_or_none(len: int) -> Option<int> {
    if len > 0 {
        Some(0)
    } else {
        None
    }
}

/// Which part of the controller a key goes to.
pub enum Mode {
    ConfirmingDelete,
    FilterEditing,
    Normal,
}

impl AppModel {
    /// Positions in `full` of the branches shown.
    pub open spec fn shown(self) -> Seq<int> {
        matching_indices(self.full, self.filter)
    }

    /// The selected branch, if any.
    pub open spec fn selected_branch(self) -> Option<BranchInfo> {
        match self.selected {
            Some(c) => Some(self.full[self.shown()[c]]),
            None => None,
        }
    }

    /// A pending delete takes every key; else an open filter edit does.
    pub open spec fn mode(self) -> Mode {
        if self.confirmation is Some {
            Mode::ConfirmingDelete
        } else if self.editing {
            Mode::FilterEditing
        } else {
            Mode::Normal
        }
    }

    pub open spec fn with_status(self, status: Seq<char>) -> AppModel {
        AppModel { status, ..self }
    }

    pub open spec fn with_selected(self, selected: Option<int>) -> AppModel {
        AppModel { selected, ..self }
    }

    /// The query replaced, and the cursor on the first branch it keeps.
    pub open spec fn refiltered(self, filter: Seq<char>) -> AppModel {
        AppModel {
            filter,
            selected: first_or_none(matching_indices(self.full, filter).len() as int),
            ..self
        }
    }

    /// The cursor after a navigation key. Nothing shown: unchanged. Nothing
    /// selected: the first branch.
    pub open spec fn moved(self, input: Input, page: int) -> Option<int> {
        let len = self.shown().len() as int;
        if len == 0 {
            self.selected
        } else {
            match input {
                Input::Home => Some(0),
                Input::End => Some(len - 1),
                _ => match self.selected {
                    None => Some(0),
                    Some(c) => Some(
                        match input {
                            Input::Down => wrap_next(c, len),
                            Input::Up => wrap_previous(c, len),
                            Input::PageDown => paged_down(c, page, len),
                            Input::PageUp => paged_up(c, page),
                            _ => c,
                        },
                    ),
                },
            }
        }
    }

    /// Asking to check out the selected branch.
    pub open spec fn switch_requested(self) -> (AppModel, ActionModel) {
        match self.selected_branch() {
            None => (self.with_status(no_selection_to_switch_message()), ActionModel::Stay),
            Some(b) => if b.is_current {
                (self.with_status(already_on_message(b.branch_name@)), ActionModel::Stay)
            } else {
                (
                    self.with_status(switching_message(b.branch_name@)),
                    ActionModel::Switch(b.branch_name@),
                )
            },
        }
    }

    /// Asking to delete the selected branch.
    pub open spec fn delete_requested(self) -> AppModel {
        match self.selected_branch() {
            None => self.with_status(no_selection_to_delete_message()),
            Some(b) => if b.is_current {
                self.with_status(current_not_deleted_message(b.branch_name@))
            } else {
                AppModel {
                    confirmation: Some(b.branch_name@),
                    status: confirm_delete_message(b.branch_name@),
                    ..self
                }
            },
        }
    }

    /// A key while a delete awaits its answer.
    pub open spec fn step_confirming(self, input: Input) -> (AppModel, ActionModel) {
        match input {
            Input::Char('y') | Input::Char('Y') => (
                AppModel { confirmation: None, ..self },
                ActionModel::Delete(self.confirmation->0),
            ),
            Input::Char('n') | Input::Char('N') | Input::Escape | Input::Backspace => (
                AppModel { confirmation: None, status: Seq::empty(), ..self },
                ActionModel::Stay,
            ),
            _ => (self, ActionModel::Stay),
        }
    }

    /// A key while the query is being typed.
    pub open spec fn step_editing(self, input: Input) -> AppModel {
        match input {
            Input::Char(c) => self.refiltered(self.filter.push(c)),
            Input::Backspace => if self.filter.len() > 0 {
                self.refiltered(self.filter.drop_last())
            } else {
                AppModel { editing: false, ..self }
            },
            Input::Enter | Input::Escape => AppModel { editing: false, ..self },
            _ => self,
        }
    }

    /// A key in normal mode.
    pub open spec fn step_normal(self, input: Input, page: int) -> (AppModel, ActionModel) {
        match input {
            Input::Char('q') | Input::Char('Q') => (self, ActionModel::Quit),
            Input::Char('/') => (
                AppModel { editing: true, status: Seq::empty(), ..self },
                ActionModel::Stay,
            ),
            Input::Char('D') => (self.delete_requested(), ActionModel::Stay),
            Input::Enter => self.switch_requested(),
            Input::Left => (self.with_selected(None), ActionModel::Stay),
            Input::Down | Input::Up | Input::PageDown | Input::PageUp | Input::Home
            | Input::End => (self.with_selected(self.moved(input, page)), ActionModel::Stay),
            _ => (self, ActionModel::Stay),
        }
    }

    /// What one key does. The end of a wait changes nothing.
    pub open spec fn step(self, input: Input, page: int) -> (AppModel, ActionModel) {
        if input is Tick {
            (self, ActionModel::Stay)
        } else {
            match self.mode() {
                Mode::ConfirmingDelete => self.step_confirming(input),
                Mode::FilterEditing => (self.step_editing(input), ActionModel::Stay),
                Mode::Normal => self.step_normal(input, page),
            }
        }
    }

    /// The state once a confirmed delete of `name` has been carried out.
    pub open spec fn after_delete(self, name: Seq<char>, outcome: DeleteOutcomeModel) -> AppModel {
        match outcome {
            DeleteOutcomeModel::Deleted(full) => {
                let len = matching_indices(full, self.filter).len() as int;
                AppModel {
                    full,
                    selected: if len == 0 {
                        None
                    } else {
                        match self.selected {
                            Some(c) => Some(if c < len { c } else { len - 1 }),
                            None => Some(0),
                        }
                    },
                    confirmation: None,
                    status: deleted_message(name),
                    ..self
                }
            },
            DeleteOutcomeModel::RefreshFailed(e) => AppModel {
                confirmation: None,
                status: refresh_failed_message(e),
                ..self
            },
            DeleteOutcomeModel::Failed(e) => AppModel {
                confirmation: None,
                status: delete_failed_message(name, e),
                ..self
            },
        }
    }
}

/// Whenever a key changes the filter query, the cursor lands on the first
/// branch shown, or on none when the query keeps no branch.
pub proof fn lemma_filter_change_resets_cursor(m: AppModel, input: Input, page: int)
    ensures
        m.step(input, page).0.filter != m.filter ==> m.step(input, page).0.selected
            == first_or_none(m.step(input, page).0.shown().len() as int),
{
}

/// While no delete is pending and the checked-out branch is selected, no key
/// starts a delete: asking to delete it leaves the confirmation idle.
pub proof fn lemma_current_branch_never_pending(m: AppModel, input: Input, page: int)
    requires
        m.confirmation is None,
        m.selected_branch() matches Some(b) && b.is_current,
    ensures
        m.step(input, page).0.confirmation is None,
{
}

/// Answering yes to a pending delete hands that branch to the repository and
/// leaves no delete pending, and so does every outcome of carrying it out.
pub proof fn lemma_confirmed_delete_ends_idle(
    m: AppModel,
    key: char,
    page: int,
    outcome: DeleteOutcomeModel,
)
    requires
        m.confirmation is Some,
        key == 'y' || key == 'Y',
    ensures
        m.step(Input::Char(key), page).1 == ActionModel::Delete(m.confirmation->0),
        m.step(Input::Char(key), page).0.confirmation is None,
        m.step(Input::Char(key), page).0.after_delete(m.confirmation->0, outcome).confirmation is None,
{
}

} // verus!
