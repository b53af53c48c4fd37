use vstd::prelude::*;

verus! {

/// Single-selection cursor over an ordered sequence of items (load commands,
/// ROM banks, sections). The sequence itself is owned elsewhere; its length
/// is supplied with each movement. `None` means nothing is selected,
/// otherwise the index lies within the sequence. Movement saturates at the
/// ends: unlike focus cycling, the selection never wraps around.
pub struct ListCursor {
    selected: Option<usize>,
}

/// One step of `select_next` on a list of `len` items: from no selection the
/// first item is selected; otherwise the index moves down by one and
/// saturates at the last item. An empty list never has a selection.
pub open spec fn next_step(sel: Option<usize>, len: usize) -> Option<usize> {
    if len == 0 {
        None
    } else {
        match sel {
            None => Some(0usize),
            Some(i) => if i + 1 < len {
                Some((i + 1) as usize)
            } else {
                Some((len - 1) as usize)
            },
        }
    }
}

/// One step of `select_previous`: from no selection the last item is
/// selected; otherwise the index moves up by one and saturates at the first
/// item.
pub open spec fn previous_step(sel: Option<usize>, len: usize) -> Option<usize> {
    if len == 0 {
        None
    } else {
        match sel {
            None => Some((len - 1) as usize),
            Some(i) => if i > 0 {
                Some((i - 1) as usize)
            } else {
                Some(0usize)
            },
        }
    }
}

/// `next_step` applied `n` times.
pub open spec fn next_steps(sel: Option<usize>, len: usize, n: nat) -> Option<usize>
    decreases n,
{
    if n == 0 {
        sel
    } else {
        next_step(next_steps(sel, len, (n - 1) as nat), len)
    }
}

/// `previous_step` applied `n` times.
pub open spec fn previous_steps(sel: Option<usize>, len: usize, n: nat) -> Option<usize>
    decreases n,
{
    if n == 0 {
        sel
    } else {
        previous_step(previous_steps(sel, len, (n - 1) as nat), len)
    }
}

impl ListCursor {
    pub closed spec fn spec_selected(&self) -> Option<usize> {
        self.selected
    }

    /// The selection is either absent or a valid index into a list of `len`
    /// items.
    pub open spec fn wf(&self, len: usize) -> bool {
        match self.spec_selected() {
            None => true,
            Some(i) => i < len,
        }
    }

    /// A fresh cursor with nothing selected.
    pub fn new() -> (c: ListCursor)
        ensures
            c.spec_selected() is None,
    {
        ListCursor { selected: None }
    }

    /// A cursor with the given item already selected.
    pub fn with_selected(i: usize) -> (c: ListCursor)
        ensures
            c.spec_selected() == Some(i),
    {
        ListCursor { selected: Some(i) }
    }

    /// The optional index used by the detail panel to decide what to render.
    pub fn selected(&self) -> (r: Option<usize>)
        ensures
            r == self.spec_selected(),
    {
        self.selected
    }

    /// Move the selection towards the end of a list of `len` items,
    /// saturating at the last item.
    pub fn select_next(&mut self, len: usize)
        requires
            old(self).wf(len),
        ensures
            final(self).spec_selected() == next_step(old(self).spec_selected(), len),
            final(self).wf(len),
    {
        if len == 0 {
            self.selected = None;
        } else {
            self.selected = match self.selected {
                None => Some(0),
                Some(i) => if i + 1 < len {
                    Some(i + 1)
                } else {
                    Some(len - 1)
                },
            };
        }
    }

    /// Move the selection towards the start of a list of `len` items,
    /// saturating at the first item.
    pub fn select_previous(&mut self, len: usize)
        requires
            old(self).wf(len),
        ensures
            final(self).spec_selected() == previous_step(old(self).spec_selected(), len),
            final(self).wf(len),
    {
        if len == 0 {
            self.selected = None;
        } else {
            self.selected = match self.selected {
                None => Some(len - 1),
                Some(i) => if i > 0 {
                    Some(i - 1)
                } else {
                    Some(0)
                },
            };
        }
    }
}

/// After `k >= 1` steps of `select_next` from an empty selection, the index
/// is `k - 1`, saturated at the last item.
proof fn lemma_next_steps_value(len: usize, k: nat)
    requires
        1 <= len,
        1 <= k,
    ensures
        next_steps(None, len, k) == Some(
            (if k - 1 < len - 1 { k - 1 } else { len - 1 }) as usize,
        ),
    decreases k,
{
    if k == 1 {
        assert(next_steps(None, len, 0) == None::<usize>);
        assert(next_steps(None, len, 1) == next_step(None, len));
    } else {
        lemma_next_steps_value(len, (k - 1) as nat);
        assert(next_steps(None, len, k) == next_step(next_steps(None, len, (k - 1) as nat), len));
    }
}

/// After `k >= 1` steps of `select_previous` from an empty selection, the
/// index is `len - k`, saturated at the first item.
proof fn lemma_previous_steps_value(len: usize, k: nat)
    requires
        1 <= len,
        1 <= k,
    ensures
        previous_steps(None, len, k) == Some(
            (if len - k > 0 { len - k } else { 0 }) as usize,
        ),
    decreases k,
{
    if k == 1 {
        assert(previous_steps(None, len, 0) == None::<usize>);
        assert(previous_steps(None, len, 1) == previous_step(None, len));
    } else {
        lemma_previous_steps_value(len, (k - 1) as nat);
        assert(previous_steps(None, len, k) == previous_step(
            previous_steps(None, len, (k - 1) as nat),
            len,
        ));
    }
}

/// Saturation law: on a non-empty list, `select_next` called `len` times
/// from an empty selection ends on the last item, and any further calls do
/// not change the selection — there is no wraparound.
pub proof fn lemma_select_next_saturates(len: usize, n: nat)
    requires
        1 <= len,
        len <= n,
    ensures
        next_steps(None, len, len as nat) == Some((len - 1) as usize),
        next_steps(None, len, n) == Some((len - 1) as usize),
{
    lemma_next_steps_value(len, len as nat);
    lemma_next_steps_value(len, n);
}

/// Saturation law, symmetric: on a non-empty list, `select_previous` called
/// `len` times from an empty selection ends on the first item, and any
/// further calls do not change the selection.
pub proof fn lemma_select_previous_saturates(len: usize, n: nat)
    requires
        1 <= len,
        len <= n,
    ensures
        previous_steps(None, len, len as nat) == Some(0usize),
        previous_steps(None, len, n) == Some(0usize),
{
    lemma_previous_steps_value(len, len as nat);
    lemma_previous_steps_value(len, n);
}

} // verus!
