//! The text shown for each branch and for the filter.
use vstd::prelude::*;
use crate::chooser::App;
use crate::git::branching::BranchInfo;
use crate::text::joined;

verus! {

/// `s` padded on the right with spaces to `width` display columns, as pad's
/// `pad_to_width` computes it.
pub uninterp spec fn padded_to_width(s: Seq<char>, width: nat) -> Seq<char>;

/// Relies on pad's `PadStr::pad_to_width`: `s` followed by as many spaces as
/// it lacks of `width` display columns (none when it is that wide already).
#[verifier::external_body]
fn pad_to_width(s: &str, width: usize) -> (r: String)
    ensures
        r@ == padded_to_width(s@, width as nat),
        s@.len() <= r@.len(),
        r@.subrange(0, s@.len() as int) == s@,
        forall|i: int| s@.len() <= i < r@.len() ==> #[trigger] r@[i] == ' ',
{
    pad::PadStr::pad_to_width(s, width)
}

/// The largest number of characters in a branch name.
pub open spec fn widest_name(bs: Seq<BranchInfo>) -> nat
    decreases bs.len(),
{
    if bs.len() == 0 {
        0
    } else {
        let rest = widest_name(bs.drop_last());
        let n = bs.last().branch_name@.len();
        if n > rest {
            n
        } else {
            rest
        }
    }
}

/// One line of the list: the name padded to `width`, then the age, then the
/// comparison with the upstream branch when there is one.
pub open spec fn row_text(b: BranchInfo, width: nat) -> Seq<char> {
    let base = padded_to_width(b.branch_name@, width) + "   changed: "@ + b.time_ago@;
    match b.upstream_status {
        Some(u) => base + "   "@ + u@,
        None => base,
    }
}

/// The line that shows the query while it is typed or while it is not empty.
pub open spec fn filter_text(editing: bool, query: Seq<char>) -> Option<Seq<char>> {
    if editing || query.len() > 0 {
        Some("filter: "@ + query)
    } else {
        None
    }
}

/// The line for one branch.
pub fn row_line(b: &BranchInfo, width: usize) -> (r: String)
    ensures
        r@ == row_text(*b, width as nat),
{
    let name = pad_to_width(b.branch_name.as_str(), width);
    let with_label = joined(name.as_str(), "   changed: ");
    let line = joined(with_label.as_str(), b.time_ago.as_str());
    match &b.upstream_status {
        Some(u) => {
            let spaced = joined(line.as_str(), "   ");
            joined(spaced.as_str(), u.as_str())
        },
        None => line,
    }
}

impl App {
    /// The lines of the branches shown, every name padded to the widest.
    pub fn list_lines(&self) -> (r: Vec<String>)
        requires
            self.wf(),
        ensures
            r@.len() == self@.shown().len(),
            forall|k: int|
                0 <= k < r@.len() ==> #[trigger] r@[k]@ == row_text(
                    self.items.filtered_view()[k],
                    widest_name(self.items.filtered_view()),
                ),
    {
        let ghost view = self.items.filtered_view();
        let n = self.items.filtered.len();
        let mut width: usize = 0;
        let mut k: usize = 0;
        while k < n
            invariant
                n == self.items.filtered@.len(),
                self.items.wf(),
                view == self.items.filtered_view(),
                k <= n,
                width as nat == widest_name(view.take(k as int)),
            decreases n - k,
        {
            let b = &self.items.items[self.filtered_at(k)];
            let w = b.branch_name.as_str().unicode_len();
            proof {
                assert(view.take(k + 1).drop_last() =~= view.take(k as int));
                assert(view[k as int] == *b);
            }
            if w > width {
                width = w;
            }
            k = k + 1;
        }
        assert(view.take(n as int) =~= view);
        let mut out: Vec<String> = Vec::new();
        let mut k: usize = 0;
        while k < n
            invariant
                n == self.items.filtered@.len(),
                self.items.wf(),
                view == self.items.filtered_view(),
                k <= n,
                width as nat == widest_name(view),
                out@.len() == k,
                forall|j: int| 0 <= j < k ==> #[trigger] out@[j]@ == row_text(view[j], width as nat),
            decreases n - k,
        {
            let b = &self.items.items[self.filtered_at(k)];
            assert(view[k as int] == *b);
            out.push(row_line(b, width));
            k = k + 1;
        }
        out
    }

    /// Position in the full list of the `k`-th branch shown.
    fn filtered_at(&self, k: usize) -> (i: usize)
        requires
            self.items.wf(),
            k < self.items.filtered@.len(),
        ensures
            i == self.items.filtered@[k as int],
            i < self.items.items@.len(),
            self.items.filtered_view()[k as int] == self.items.items@[i as int],
    {
        self.items.filtered[k]
    }

    /// The filter line, when there is one to show.
    pub fn filter_line(&self) -> (r: Option<String>)
        ensures
            match filter_text(self.editing, self.filter@) {
                Some(t) => r matches Some(l) && l@ == t,
                None => r is None,
            },
    {
        if self.editing || !self.filter.as_str().is_empty() {
            Some(joined("filter: ", self.filter.as_str()))
        } else {
            None
        }
    }
}

} // verus!
