//! Cyclic focus navigation over a window's named focusable children.
//!
//! A `FocusTracker` keeps the children's ids in registration order and a
//! cursor that `focus_next` / `focus_prev` move cyclically; on an empty
//! registry every operation returns `None` and changes nothing.

use vstd::prelude::*;

use crate::text::str_eq;

verus! {

/// Cursor position after one forward step from `i` in a registry of `n` ids.
pub open spec fn next_index(i: int, n: int) -> int {
    if i + 1 == n {
        0
    } else {
        i + 1
    }
}

/// Cursor position after one backward step from `i` in a registry of `n` ids.
pub open spec fn prev_index(i: int, n: int) -> int {
    if i == 0 {
        n - 1
    } else {
        i - 1
    }
}

/// Cursor position after `k` forward steps from `i` in a registry of `n` ids.
pub open spec fn advance(i: int, k: int, n: int) -> int
    decreases k,
{
    if k <= 0 {
        i
    } else {
        next_index(advance(i, k - 1, n), n)
    }
}

/// Cursor position after `k` backward steps from `i` in a registry of `n` ids.
pub open spec fn retreat(i: int, k: int, n: int) -> int
    decreases k,
{
    if k <= 0 {
        i
    } else {
        prev_index(retreat(i, k - 1, n), n)
    }
}

/// `k` forward steps from `i` land on `i + k`, wrapped once past the end.
pub proof fn lemma_advance_steps(i: int, k: int, n: int)
    requires
        0 <= i < n,
        0 <= k <= n,
    ensures
        advance(i, k, n) == if i + k < n {
            i + k
        } else {
            i + k - n
        },
    decreases k,
{
    if k > 0 {
        lemma_advance_steps(i, k - 1, n);
    }
}

/// `k` backward steps from `i` land on `i - k`, wrapped once past the start.
pub proof fn lemma_retreat_steps(i: int, k: int, n: int)
    requires
        0 <= i < n,
        0 <= k <= n,
    ensures
        retreat(i, k, n) == if i - k >= 0 {
            i - k
        } else {
            i - k + n
        },
    decreases k,
{
    if k > 0 {
        lemma_retreat_steps(i, k - 1, n);
    }
}

/// Law: a full cycle of `focus_next` steps, as many as there are registered
/// ids, returns the cursor to where it started; likewise for `focus_prev`.
pub proof fn lemma_focus_full_cycle(i: int, n: int)
    requires
        0 <= i < n,
    ensures
        advance(i, n, n) == i,
        retreat(i, n, n) == i,
{
    lemma_advance_steps(i, n, n);
    lemma_retreat_steps(i, n, n);
}

/// Ordered registry of focusable child ids plus a cursor, possibly absent.
pub struct FocusTracker {
    ids: Vec<String>,
    cursor: Option<usize>,
}

impl FocusTracker {
    /// The cursor, when present, points into the registry.
    pub closed spec fn wf(self) -> bool {
        match self.cursor {
            Some(i) => i < self.ids@.len(),
            None => true,
        }
    }

    /// The registered ids, in registration order.
    pub closed spec fn ids_view(self) -> Seq<String> {
        self.ids@
    }

    /// The current cursor position, if any.
    pub closed spec fn cursor_view(self) -> Option<int> {
        match self.cursor {
            Some(i) => Some(i as int),
            None => None,
        }
    }

    /// An empty tracker with no focused child.
    pub fn new(ids: Vec<String>) -> (r: FocusTracker)
        ensures
            r.wf(),
            r.ids_view() == ids@,
            r.cursor_view() is None,
    {
        FocusTracker { ids, cursor: None }
    }

    /// A tracker whose cursor starts on the first id equal to `focused`,
    /// or absent when no id matches.
    pub fn with_focused(ids: Vec<String>, focused: &str) -> (r: FocusTracker)
        ensures
            r.wf(),
            r.ids_view() == ids@,
            match r.cursor_view() {
                Some(i) => 0 <= i < ids@.len() && ids@[i]@ == focused@ && (forall|j: int|
                    0 <= j < i ==> ids@[j]@ != focused@),
                None => forall|j: int| 0 <= j < ids@.len() ==> ids@[j]@ != focused@,
            },
    {
        let mut k: usize = 0;
        while k < ids.len()
            invariant
                k <= ids@.len(),
                forall|j: int| 0 <= j < k ==> ids@[j]@ != focused@,
            decreases ids@.len() - k,
        {
            if str_eq(ids[k].as_str(), focused) {
                return FocusTracker { ids, cursor: Some(k) };
            }
            k += 1;
        }
        FocusTracker { ids, cursor: None }
    }

    /// The id under the cursor, or `None` when nothing has focus.
    pub fn get_focused_view(&self) -> (r: Option<String>)
        requires
            self.wf(),
        ensures
            match self.cursor_view() {
                Some(i) => r == Some(self.ids_view()[i]),
                None => r is None,
            },
    {
        match self.cursor {
            Some(i) => Some(self.ids[i].clone()),
            None => None,
        }
    }

    /// Move the cursor one id forward in registration order, wrapping to the
    /// first id after the last; on an empty registry return `None` and leave
    /// the tracker unchanged. An absent cursor starts at the first id.
    pub fn focus_next(&mut self) -> (r: Option<String>)
        requires
            old(self).wf(),
        ensures
            final(self).wf(),
            final(self).ids_view() == old(self).ids_view(),
            old(self).ids_view().len() == 0 ==> r is None && final(self).cursor_view() == old(
                self,
            ).cursor_view(),
            old(self).ids_view().len() > 0 ==> {
                let i = match old(self).cursor_view() {
                    Some(c) => next_index(c, old(self).ids_view().len() as int),
                    None => 0,
                };
                final(self).cursor_view() == Some(i) && r == Some(old(self).ids_view()[i])
            },
    {
        if self.ids.len() == 0 {
            return None;
        }
        let i: usize = match self.cursor {
            Some(c) => if c + 1 == self.ids.len() {
                0
            } else {
                c + 1
            },
            None => 0,
        };
        self.cursor = Some(i);
        Some(self.ids[i].clone())
    }

    /// Move the cursor one id backward in registration order, wrapping to the
    /// last id before the first; on an empty registry return `None` and leave
    /// the tracker unchanged. An absent cursor starts at the last id.
    pub fn focus_prev(&mut self) -> (r: Option<String>)
        requires
            old(self).wf(),
        ensures
            final(self).wf(),
            final(self).ids_view() == old(self).ids_view(),
            old(self).ids_view().len() == 0 ==> r is None && final(self).cursor_view() == old(
                self,
            ).cursor_view(),
            old(self).ids_view().len() > 0 ==> {
                let i = match old(self).cursor_view() {
                    Some(c) => prev_index(c, old(self).ids_view().len() as int),
                    None => old(self).ids_view().len() - 1,
                };
                final(self).cursor_view() == Some(i) && r == Some(old(self).ids_view()[i])
            },
    {
        if self.ids.len() == 0 {
            return None;
        }
        let i: usize = match self.cursor {
            Some(c) => if c == 0 {
                self.ids.len() - 1
            } else {
                c - 1
            },
            None => self.ids.len() - 1,
        };
        self.cursor = Some(i);
        Some(self.ids[i].clone())
    }
}

} // verus!
