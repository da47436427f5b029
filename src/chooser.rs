//! The controller: one list, one filter, one pending delete and one status
//! line, driven a key at a time.
use vstd::prelude::*;
use crate::controller::{
    first_or_none, switch_failed_message, Action, AppModel, DeleteOutcome, Input,
};
use crate::filter::{
    as_positions, filtered_indices, lemma_filter_is_matching_subsequence, matching_indices,
};
use crate::git::branching::BranchInfo;
use crate::list::StatefulList;
use crate::text::{clear_text, joined, pop_char, push_char};

verus! {

/// An action needed a selected branch and there was none.
pub struct NoSelectionError;

/// The controller's state.
pub struct App {
    pub items: StatefulList,
    /// The filter query.
    pub filter: String,
    /// Whether keys are being typed into the query.
    pub editing: bool,
    /// The status line.
    pub pending: String,
    /// The branch awaiting a yes or no before it is deleted.
    pub delete_confirmation: Option<String>,
}

impl View for App {
    type V = AppModel;

    open spec fn view(&self) -> AppModel {
        AppModel {
            full: self.items.items@,
            filter: self.filter@,
            editing: self.editing,
            selected: self.items.cursor(),
            status: self.pending@,
            confirmation: match self.delete_confirmation {
                Some(n) => Some(n@),
                None => None,
            },
        }
    }
}

impl App {
    /// The list is sound and shows exactly what the query keeps.
    pub open spec fn wf(&self) -> bool {
        &&& self.items.wf()
        &&& as_positions(self.items.filtered@) == matching_indices(self.items.items@, self.filter@)
    }

    /// A controller over `branches` with an empty query, nothing selected,
    /// nothing pending and an empty status line.
    pub fn new(branches: Vec<BranchInfo>) -> (app: App)
        ensures
            app.wf(),
            app@ == (AppModel {
                full: branches@,
                filter: Seq::empty(),
                editing: false,
                selected: None,
                status: Seq::empty(),
                confirmation: None,
            }),
    {
        proof {
            lemma_filter_is_matching_subsequence(branches@, Seq::empty());
        }
        App {
            items: StatefulList::with_items(branches),
            filter: String::new(),
            editing: false,
            pending: String::new(),
            delete_confirmation: None,
        }
    }

    /// Selects the first branch shown when nothing is selected.
    pub fn select_first_item_if_none(&mut self)
        requires
            old(self).wf(),
        ensures
            final(self).wf(),
            final(self)@ == old(self)@.with_selected(
                if old(self)@.selected is None {
                    first_or_none(old(self)@.shown().len() as int)
                } else {
                    old(self)@.selected
                },
            ),
    {
        if self.items.selected.is_none() && self.items.filtered.len() > 0 {
            self.items.selected = Some(0);
        }
    }

    /// The name of the selected branch.
    pub fn get_selected_branch_name(&mut self) -> (r: Result<String, NoSelectionError>)
        requires
            old(self).wf(),
        ensures
            *final(self) == *old(self),
            match old(self)@.selected_branch() {
                Some(b) => r matches Ok(n) && n@ == b.branch_name@,
                None => r is Err,
            },
    {
        match self.items.selected_item() {
            Some(b) => Ok(b.branch_name.clone()),
            None => Err(NoSelectionError),
        }
    }

    /// Shows `pending_status` after clearing the query.
    pub fn update_with_status(&mut self, pending_status: String)
        requires
            old(self).wf(),
        ensures
            final(self).wf(),
            final(self)@ == old(self)@.refiltered(Seq::empty()).with_status(pending_status@),
    {
        clear_text(&mut self.filter);
        self.update_filtered();
        self.pending = pending_status;
    }

    /// Shows `pending_status`, keeping the query.
    pub fn update_with_status_preserve_filter(&mut self, pending_status: String)
        requires
            old(self).wf(),
        ensures
            final(self).wf(),
            final(self)@ == old(self)@.with_status(pending_status@),
    {
        self.pending = pending_status;
    }

    /// Empties the status line.
    pub fn clear_pending_status(&mut self)
        requires
            old(self).wf(),
        ensures
            final(self).wf(),
            final(self)@ == old(self)@.with_status(Seq::empty()),
    {
        clear_text(&mut self.pending);
    }

    /// Recomputes what the query keeps and moves the cursor to the first
    /// branch shown, or to none.
    pub fn update_filtered(&mut self)
        requires
            old(self).items.wf(),
        ensures
            final(self).wf(),
            final(self)@ == old(self)@.refiltered(old(self)@.filter),
    {
        let f = filtered_indices(&self.items.items, &self.filter);
        proof {
            lemma_filter_is_matching_subsequence(self.items.items@, self.filter@);
            assert forall|k: int| 0 <= k < f@.len() implies #[trigger] f@[k] < self.items.items@.len() by {
                assert(as_positions(f@)[k] == f@[k] as int);
            }
        }
        self.items.filtered = f;
        if self.items.filtered.len() == 0 {
            self.items.selected = None;
        } else {
            self.items.selected = Some(0);
        }
    }

    /// Replaces every branch, keeps the query, and moves the cursor to the
    /// first branch shown, or to none.
    pub fn set_branches(&mut self, branches: Vec<BranchInfo>)
        requires
            old(self).wf(),
        ensures
            final(self).wf(),
            final(self)@ == (AppModel { full: branches@, ..old(self)@ }).refiltered(old(self)@.filter),
    {
        self.items.items = branches;
        self.items.selected = None;
        self.items.filtered = Vec::new();
        self.update_filtered();
    }

    /// Reports that checking out a branch failed.
    pub fn switch_failed(&mut self, error: &String)
        requires
            old(self).wf(),
        ensures
            final(self).wf(),
            final(self)@ == old(self)@.with_status(switch_failed_message(error@)),
    {
        self.pending = joined("couldn't change branch. reason: ", error.as_str());
    }

    /// Enter in normal mode: check out the selected branch unless it is
    /// already checked out or nothing is selected.
    fn request_switch(&mut self) -> (r: Action)
        requires
            old(self).wf(),
        ensures
            final(self).wf(),
            final(self)@ == old(self)@.switch_requested().0,
            r@ == old(self)@.switch_requested().1,
    {
        match self.items.selected_item() {
            None => {
                self.pending = String::from_str("no selection, nothing to do!");
                Action::Stay
            },
            Some(b) => {
                if b.is_current {
                    self.pending = joined("already on branch: ", b.branch_name.as_str());
                    Action::Stay
                } else {
                    let name = b.branch_name.clone();
                    self.pending = joined("switching to branch: ", name.as_str());
                    Action::Switch(name)
                }
            },
        }
    }

    /// Asks for confirmation before deleting the selected branch; refuses
    /// the branch that is checked out, and a missing selection.
    pub fn request_delete(&mut self)
        requires
            old(self).wf(),
        ensures
            final(self).wf(),
            final(self)@ == old(self)@.delete_requested(),
    {
        match self.items.selected_item() {
            None => {
                self.pending = String::from_str("no selection, nothing to delete!");
            },
            Some(b) => {
                if b.is_current {
                    self.pending = joined("can't delete the current branch: ", b.branch_name.as_str());
                } else {
                    let name = b.branch_name.clone();
                    let head = joined("confirm deleting branch ", name.as_str());
                    self.pending = joined(head.as_str(), "? press Y to delete or N to cancel");
                    self.delete_confirmation = Some(name);
                }
            },
        }
    }

    fn handle_confirming(&mut self, input: Input) -> (r: Action)
        requires
            old(self).wf(),
            old(self)@.mode() is ConfirmingDelete,
        ensures
            final(self).wf(),
            final(self)@ == old(self)@.step_confirming(input).0,
            r@ == old(self)@.step_confirming(input).1,
    {
        match input {
            Input::Char('y') | Input::Char('Y') => {
                let name = self.delete_confirmation.take().unwrap();
                Action::Delete(name)
            },
            Input::Char('n') | Input::Char('N') | Input::Escape | Input::Backspace => {
                self.delete_confirmation = None;
                clear_text(&mut self.pending);
                Action::Stay
            },
            _ => Action::Stay,
        }
    }

    fn handle_editing(&mut self, input: Input)
        requires
            old(self).wf(),
        ensures
            final(self).wf(),
            final(self)@ == old(self)@.step_editing(input),
    {
        match input {
            Input::Char(c) => {
                push_char(&mut self.filter, c);
                self.update_filtered();
            },
            Input::Backspace => {
                match pop_char(&mut self.filter) {
                    Some(_) => self.update_filtered(),
                    None => self.editing = false,
                }
            },
            Input::Enter | Input::Escape => {
                self.editing = false;
            },
            _ => {},
        }
    }

    fn handle_normal(&mut self, input: Input, page_size: usize) -> (r: Action)
        requires
            old(self).wf(),
        ensures
            final(self).wf(),
            final(self)@ == old(self)@.step_normal(input, page_size as int).0,
            r@ == old(self)@.step_normal(input, page_size as int).1,
    {
        proof {
            assert(self@.shown().len() == self.items.shown_len());
        }
        match input {
            Input::Char('q') | Input::Char('Q') => Action::Quit,
            Input::Char('/') => {
                self.editing = true;
                clear_text(&mut self.pending);
                Action::Stay
            },
            Input::Char('D') => {
                self.request_delete();
                Action::Stay
            },
            Input::Enter => self.request_switch(),
            Input::Left => {
                self.items.unselect();
                Action::Stay
            },
            Input::Down => {
                self.items.next();
                Action::Stay
            },
            Input::Up => {
                self.items.previous();
                Action::Stay
            },
            Input::PageDown => {
                self.items.page_down(page_size);
                Action::Stay
            },
            Input::PageUp => {
                self.items.page_up(page_size);
                Action::Stay
            },
            Input::Home => {
                self.items.go_to_first();
                Action::Stay
            },
            Input::End => {
                self.items.go_to_last();
                Action::Stay
            },
            _ => Action::Stay,
        }
    }

    /// Takes one key: a pending delete takes every key, else an open filter
    /// edit does, else normal mode. `page_size` is how far a page key moves.
    pub fn handle_key(&mut self, input: Input, page_size: usize) -> (r: Action)
        requires
            old(self).wf(),
        ensures
            final(self).wf(),
            final(self)@ == old(self)@.step(input, page_size as int).0,
            r@ == old(self)@.step(input, page_size as int).1,
    {
        if let Input::Tick = input {
            return Action::Stay;
        }
        if self.delete_confirmation.is_some() {
            self.handle_confirming(input)
        } else if self.editing {
            self.handle_editing(input);
            Action::Stay
        } else {
            self.handle_normal(input, page_size)
        }
    }

    /// Reports how a confirmed delete of `name` went. Whatever came of it, no
    /// delete is pending afterwards.
    pub fn finish_delete(&mut self, name: &String, outcome: DeleteOutcome)
        requires
            old(self).wf(),
        ensures
            final(self).wf(),
            final(self)@ == old(self)@.after_delete(name@, outcome@),
    {
        self.delete_confirmation = None;
        match outcome {
            DeleteOutcome::Deleted(branches) => {
                let previous = self.items.selected;
                self.set_branches(branches);
                let len = self.items.filtered.len();
                if len > 0 {
                    if let Some(c) = previous {
                        self.items.selected = Some(if c < len { c } else { len - 1 });
                    }
                }
                self.pending = joined("deleted branch: ", name.as_str());
            },
            DeleteOutcome::RefreshFailed(e) => {
                self.pending = joined("deleted branch but failed to refresh list: ", e.as_str());
            },
            DeleteOutcome::Failed(e) => {
                let head = joined("couldn't delete branch ", name.as_str());
                let middle = joined(head.as_str(), ": ");
                self.pending = joined(middle.as_str(), e.as_str());
            },
        }
    }
}

} // verus!
