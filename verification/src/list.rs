//! Wrap-around navigator over the task list.
//!
//! The navigator owns only an optional highlighted index, never the
//! list itself; each step is taken against the list's length at call
//! time. Steps wrap at either end, and on an empty list the selection
//! is cleared rather than left dangling.

use vstd::prelude::*;

verus! {

/// A selection that is valid for a list of the given length: nothing,
/// or an index strictly below the length.
pub open spec fn selection_ok(sel: Option<usize>, length: usize) -> bool {
    match sel {
        None => true,
        Some(i) => i < length,
    }
}

/// The selection after one step forward.
pub open spec fn next_selected(sel: Option<usize>, length: usize) -> Option<usize> {
    if length == 0 {
        None
    } else {
        match sel {
            None => Some(0usize),
            Some(i) => if i + 1 >= length {
                Some(0usize)
            } else {
                Some((i + 1) as usize)
            },
        }
    }
}

/// The selection after one step backward.
pub open spec fn previous_selected(sel: Option<usize>, length: usize) -> Option<usize> {
    if length == 0 {
        None
    } else {
        match sel {
            None => Some((length - 1) as usize),
            Some(i) => if i == 0 || i >= length {
                Some((length - 1) as usize)
            } else {
                Some((i - 1) as usize)
            },
        }
    }
}

/// Tracker of the highlighted index over the task list.
#[derive(Clone, Copy, Debug, PartialEq, Eq)]
pub struct TaskList {
    pub selected: Option<usize>,
}

impl TaskList {
    /// A navigator with nothing highlighted.
    pub fn new() -> (r: Self)
        ensures
            r.selected is None,
    {
        TaskList { selected: None }
    }

    /// Steps the selection forward: from nothing to the first index,
    /// from the last index back around to the first.
    pub fn next(&mut self, length: usize)
        ensures
            final(self).selected == next_selected(old(self).selected, length),
            selection_ok(final(self).selected, length),
    {
        if length == 0 {
            self.selected = None;
            return ;
        }
        let i = match self.selected {
            Some(i) => {
                if i >= length - 1 {
                    0
                } else {
                    i + 1
                }
            },
            None => 0,
        };
        self.selected = Some(i);
    }

    /// Steps the selection backward: from nothing to the last index,
    /// from the first index back around to the last.
    pub fn previous(&mut self, length: usize)
        ensures
            final(self).selected == previous_selected(old(self).selected, length),
            selection_ok(final(self).selected, length),
    {
        if length == 0 {
            self.selected = None;
            return ;
        }
        let i = match self.selected {
            Some(i) => {
                if i == 0 || i >= length {
                    length - 1
                } else {
                    i - 1
                }
            },
            None => length - 1,
        };
        self.selected = Some(i);
    }
}

/// The selection after `k` forward steps.
pub open spec fn next_iter(sel: Option<usize>, length: usize, k: nat) -> Option<usize>
    decreases k,
{
    if k == 0 {
        sel
    } else {
        next_iter(next_selected(sel, length), length, (k - 1) as nat)
    }
}

/// The selection after `k` backward steps.
pub open spec fn previous_iter(sel: Option<usize>, length: usize, k: nat) -> Option<usize>
    decreases k,
{
    if k == 0 {
        sel
    } else {
        previous_iter(previous_selected(sel, length), length, (k - 1) as nat)
    }
}

proof fn lemma_next_iter_formula(i: usize, length: usize, k: nat)
    requires
        i < length,
        k <= length,
    ensures
        next_iter(Some(i), length, k) == (if i + k < length {
            Some((i + k) as usize)
        } else {
            Some((i + k - length) as usize)
        }),
    decreases k,
{
    if k > 0 {
        if i + 1 < length {
            lemma_next_iter_formula((i + 1) as usize, length, (k - 1) as nat);
        } else {
            lemma_next_iter_formula(0usize, length, (k - 1) as nat);
        }
    }
}

proof fn lemma_previous_iter_formula(i: usize, length: usize, k: nat)
    requires
        i < length,
        k <= length,
    ensures
        previous_iter(Some(i), length, k) == (if i >= k {
            Some((i - k) as usize)
        } else {
            Some((i - k + length) as usize)
        }),
    decreases k,
{
    if k > 0 {
        if i > 0 {
            lemma_previous_iter_formula((i - 1) as usize, length, (k - 1) as nat);
        } else {
            lemma_previous_iter_formula((length - 1) as usize, length, (k - 1) as nat);
        }
    }
}

/// Wrap invariant: over a list of length `n > 0`, exactly `n` forward
/// steps from any in-range selection lead back to that selection.
pub proof fn lemma_next_wraps(i: usize, length: usize)
    requires
        0 < length,
        i < length,
    ensures
        next_iter(Some(i), length, length as nat) == Some(i),
{
    lemma_next_iter_formula(i, length, length as nat);
}

/// Wrap invariant: over a list of length `n > 0`, exactly `n` backward
/// steps from any in-range selection lead back to that selection.
pub proof fn lemma_previous_wraps(i: usize, length: usize)
    requires
        0 < length,
        i < length,
    ensures
        previous_iter(Some(i), length, length as nat) == Some(i),
{
    lemma_previous_iter_formula(i, length, length as nat);
}

} // verus!
