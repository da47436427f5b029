//! The branch list: every branch, the positions that the filter keeps, and the
//! selection cursor over those positions.
use vstd::prelude::*;
use crate::filter::as_positions;
use crate::git::branching::BranchInfo;

verus! {

/// The cursor after moving one step down, wrapping from the last item to the first.
pub open spec fn wrap_next(c: int, len: int) -> int {
    if c + 1 >= len {
        0
    } else {
        c + 1
    }
}

/// The cursor after moving one step up, wrapping from the first item to the last.
pub open spec fn wrap_previous(c: int, len: int) -> int {
    if c <= 0 {
        len - 1
    } else {
        c - 1
    }
}

/// The cursor after `k` steps down.
pub open spec fn advance_by(c: int, len: int, k: nat) -> int
    decreases k,
{
    if k == 0 {
        c
    } else {
        wrap_next(advance_by(c, len, (k - 1) as nat), len)
    }
}

/// The cursor after a page down: `page` further, but not past the last item.
pub open spec fn paged_down(c: int, page: int, len: int) -> int {
    if c + page >= len - 1 {
        len - 1
    } else {
        c + page
    }
}

/// The cursor after a page up: `page` back, but not before the first item.
pub open spec fn paged_up(c: int, page: int) -> int {
    if c <= page {
        0
    } else {
        c - page
    }
}

/// Full set of branches, the filtered view as positions into it, and the cursor.
pub struct StatefulList {
    /// Position in `filtered` of the selected branch.
    pub selected: Option<usize>,
    /// Every branch, newest first.
    pub items: Vec<BranchInfo>,
    /// Positions in `items` of the branches shown, in increasing order.
    pub filtered: Vec<usize>,
}

impl StatefulList {
    /// Every shown position names a branch, and the cursor names a shown one.
    pub open spec fn wf(&self) -> bool {
        &&& forall|k: int| 0 <= k < self.filtered@.len() ==> #[trigger] self.filtered@[k] < self.items@.len()
        &&& (self.selected matches Some(c) ==> c < self.filtered@.len())
    }

    /// The cursor as a position among the branches shown.
    pub open spec fn cursor(&self) -> Option<int> {
        match self.selected {
            Some(c) => Some(c as int),
            None => None,
        }
    }

    /// Number of branches shown.
    pub open spec fn shown_len(&self) -> int {
        self.filtered@.len() as int
    }

    /// The branches shown, in order.
    pub open spec fn filtered_view(&self) -> Seq<BranchInfo> {
        as_positions(self.filtered@).map_values(|i: int| self.items@[i])
    }

    /// The selected branch, if any.
    pub open spec fn selected_branch(&self) -> Option<BranchInfo> {
        match self.selected {
            Some(c) => Some(self.items@[self.filtered@[c as int] as int]),
            None => None,
        }
    }

    /// Nothing changes but the cursor.
    pub open spec fn same_contents(&self, other: &StatefulList) -> bool {
        &&& self.items@ == other.items@
        &&& self.filtered@ == other.filtered@
    }

    /// A list that shows every branch, with nothing selected.
    pub fn with_items(items: Vec<BranchInfo>) -> (l: StatefulList)
        ensures
            l.wf(),
            l.items@ == items@,
            l.shown_len() == items@.len(),
            as_positions(l.filtered@) == Seq::new(items@.len(), |i: int| i),
            l.selected is None,
    {
        let mut filtered: Vec<usize> = Vec::new();
        let mut i: usize = 0;
        while i < items.len()
            invariant
                i <= items@.len(),
                filtered@.len() == i,
                forall|j: int| 0 <= j < i ==> #[trigger] filtered@[j] == j,
            decreases items.len() - i,
        {
            filtered.push(i);
            i = i + 1;
        }
        assert(as_positions(filtered@) =~= Seq::new(items@.len(), |j: int| j));
        StatefulList { selected: None, items, filtered }
    }

    /// Clears the selection, whatever is shown.
    pub fn unselect(&mut self)
        requires
            old(self).wf(),
        ensures
            final(self).wf(),
            final(self).same_contents(old(self)),
            final(self).selected is None,
    {
        self.selected = None;
    }

    /// Moves the cursor one step down, from the last item back to the first.
    /// With nothing selected it selects the first item; with nothing shown it
    /// does nothing.
    pub fn next(&mut self)
        requires
            old(self).wf(),
        ensures
            final(self).wf(),
            final(self).same_contents(old(self)),
            old(self).shown_len() == 0 ==> final(self).cursor() == old(self).cursor(),
            old(self).shown_len() > 0 ==> final(self).cursor() == Some(
                match old(self).cursor() {
                    Some(c) => wrap_next(c, old(self).shown_len()),
                    None => 0,
                },
            ),
    {
        let len = self.filtered.len();
        if len == 0 {
            return;
        }
        let i = match self.selected {
            Some(c) => if c + 1 >= len {
                0
            } else {
                c + 1
            },
            None => 0,
        };
        self.selected = Some(i);
    }

    /// Moves the cursor one step up, from the first item to the last.
    /// With nothing selected it selects the first item; with nothing shown it
    /// does nothing.
    pub fn previous(&mut self)
        requires
            old(self).wf(),
        ensures
            final(self).wf(),
            final(self).same_contents(old(self)),
            old(self).shown_len() == 0 ==> final(self).cursor() == old(self).cursor(),
            old(self).shown_len() > 0 ==> final(self).cursor() == Some(
                match old(self).cursor() {
                    Some(c) => wrap_previous(c, old(self).shown_len()),
                    None => 0,
                },
            ),
    {
        let len = self.filtered.len();
        if len == 0 {
            return;
        }
        let i = match self.selected {
            Some(c) => if c == 0 {
                len - 1
            } else {
                c - 1
            },
            None => 0,
        };
        self.selected = Some(i);
    }

    /// Moves the cursor `page_size` items down, stopping at the last item.
    /// With nothing selected it selects the first item; with nothing shown it
    /// does nothing.
    pub fn page_down(&mut self, page_size: usize)
        requires
            old(self).wf(),
        ensures
            final(self).wf(),
            final(self).same_contents(old(self)),
            old(self).shown_len() == 0 ==> final(self).cursor() == old(self).cursor(),
            old(self).shown_len() > 0 ==> final(self).cursor() == Some(
                match old(self).cursor() {
                    Some(c) => paged_down(c, page_size as int, old(self).shown_len()),
                    None => 0,
                },
            ),
    {
        let len = self.filtered.len();
        if len == 0 {
            return;
        }
        let i = match self.selected {
            Some(c) => if page_size >= len - 1 - c {
                len - 1
            } else {
                c + page_size
            },
            None => 0,
        };
        self.selected = Some(i);
    }

    /// Moves the cursor `page_size` items up, stopping at the first item.
    /// With nothing selected it selects the first item; with nothing shown it
    /// does nothing.
    pub fn page_up(&mut self, page_size: usize)
        requires
            old(self).wf(),
        ensures
            final(self).wf(),
            final(self).same_contents(old(self)),
            old(self).shown_len() == 0 ==> final(self).cursor() == old(self).cursor(),
            old(self).shown_len() > 0 ==> final(self).cursor() == Some(
                match old(self).cursor() {
                    Some(c) => paged_up(c, page_size as int),
                    None => 0,
                },
            ),
    {
        let len = self.filtered.len();
        if len == 0 {
            return;
        }
        let i = match self.selected {
            Some(c) => if c <= page_size {
                0
            } else {
                c - page_size
            },
            None => 0,
        };
        self.selected = Some(i);
    }

    /// Selects the first item shown; does nothing when nothing is shown.
    pub fn go_to_first(&mut self)
        requires
            old(self).wf(),
        ensures
            final(self).wf(),
            final(self).same_contents(old(self)),
            old(self).shown_len() == 0 ==> final(self).cursor() == old(self).cursor(),
            old(self).shown_len() > 0 ==> final(self).cursor() == Some(0int),
    {
        if self.filtered.len() > 0 {
            self.selected = Some(0);
        }
    }

    /// Selects the last item shown; does nothing when nothing is shown.
    pub fn go_to_last(&mut self)
        requires
            old(self).wf(),
        ensures
            final(self).wf(),
            final(self).same_contents(old(self)),
            old(self).shown_len() == 0 ==> final(self).cursor() == old(self).cursor(),
            old(self).shown_len() > 0 ==> final(self).cursor() == Some(old(self).shown_len() - 1),
    {
        let len = self.filtered.len();
        if len > 0 {
            self.selected = Some(len - 1);
        }
    }

    /// The selected branch, if any.
    pub fn selected_item(&self) -> (r: Option<&BranchInfo>)
        requires
            self.wf(),
        ensures
            r matches Some(b) ==> self.selected_branch() == Some(*b),
            r is None <==> self.selected is None,
    {
        match self.selected {
            Some(c) => Some(&self.items[self.filtered[c]]),
            None => None,
        }
    }
}

/// Moving down as many times as there are items shown brings the cursor back
/// to where it started.
pub proof fn lemma_next_cycles(c: int, len: int)
    requires
        0 <= c < len,
    ensures
        advance_by(c, len, len as nat) == c,
{
    lemma_advance_by(c, len, len as nat);
}

proof fn lemma_advance_by(c: int, len: int, k: nat)
    requires
        0 <= c < len,
        k <= len,
    ensures
        advance_by(c, len, k) == if c + k < len {
            c + k
        } else {
            c + k - len
        },
    decreases k,
{
    if k > 0 {
        lemma_advance_by(c, len, (k - 1) as nat);
    }
}

} // verus!
