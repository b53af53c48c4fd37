use vstd::prelude::*;
use vstd::arithmetic::div_mod::{
    lemma_add_mod_noop_right, lemma_mod_multiples_vanish, lemma_small_mod,
};

verus! {

/// Direction of a focus movement: forwards (Tab) or backwards (Shift-Tab)
/// through the cycle order.
#[derive(Clone, Copy, PartialEq, Eq, Structural)]
pub enum Direction {
    Forward,
    Backward,
}

/// Generic ordered cursor over a format's focusable regions. The regions are
/// identified by their position in the fixed cycle order of the format; the
/// format viewer maps positions back to its own focus names. `None` stands
/// for the sentinel "nothing focused" value used while the command line owns
/// the keyboard. Movement is circular in both directions, unlike list
/// selection, which saturates.
pub struct FocusCycle {
    len: usize,
    focus: Option<usize>,
    previous: Option<usize>,
}

/// The position a movement starts from: the current position, or position 0
/// when the focus is the sentinel — a defined rather than undefined edge
/// case.
pub open spec fn base_position(focus: Option<usize>, len: usize) -> int {
    match focus {
        None => 0int,
        Some(i) => i as int,
    }
}

/// The position one movement away, wrapping around at both ends of the
/// cycle order.
pub open spec fn advance_position(focus: Option<usize>, len: usize, dir: Direction) -> int {
    let base = base_position(focus, len);
    match dir {
        Direction::Forward => if base + 1 < len {
            base + 1
        } else {
            0int
        },
        Direction::Backward => if base == 0 {
            len - 1
        } else {
            base - 1
        },
    }
}

/// `advance` applied `n` times in the same direction.
pub open spec fn advance_positions(
    focus: Option<usize>,
    len: usize,
    dir: Direction,
    n: nat,
) -> Option<usize>
    decreases n,
{
    if n == 0 {
        focus
    } else {
        let prev = advance_positions(focus, len, dir, (n - 1) as nat);
        Some(advance_position(prev, len, dir) as usize)
    }
}

impl FocusCycle {
    pub closed spec fn spec_len(&self) -> usize {
        self.len
    }

    pub closed spec fn spec_focus(&self) -> Option<usize> {
        self.focus
    }

    pub closed spec fn spec_previous(&self) -> Option<usize> {
        self.previous
    }

    /// The cycle order is never empty, and the focus and the saved previous
    /// focus are either the sentinel or positions inside it.
    pub open spec fn wf(&self) -> bool {
        &&& 1 <= self.spec_len()
        &&& match self.spec_focus() {
            None => true,
            Some(i) => i < self.spec_len(),
        }
        &&& match self.spec_previous() {
            None => true,
            Some(i) => i < self.spec_len(),
        }
    }

    /// A cycle over `len` regions with the region at `start` focused and no
    /// saved previous focus.
    pub fn new(len: usize, start: usize) -> (c: FocusCycle)
        requires
            1 <= len,
            start < len,
        ensures
            c.wf(),
            c.spec_len() == len,
            c.spec_focus() == Some(start),
            c.spec_previous() is None,
    {
        FocusCycle { len, focus: Some(start), previous: None }
    }

    /// The position of the currently focused region, or `None` while
    /// unfocused. Rendering reads this to decide which panel gets the
    /// emphasized style.
    pub fn focus(&self) -> (r: Option<usize>)
        ensures
            r == self.spec_focus(),
    {
        self.focus
    }

    /// Move the focus one region through the cycle order, wrapping in both
    /// directions; from the sentinel the movement starts at position 0.
    pub fn advance(&mut self, dir: Direction)
        requires
            old(self).wf(),
        ensures
            final(self).wf(),
            final(self).spec_len() == old(self).spec_len(),
            final(self).spec_previous() == old(self).spec_previous(),
            final(self).spec_focus() == Some(
                advance_position(old(self).spec_focus(), old(self).spec_len(), dir) as usize,
            ),
    {
        let base: usize = match self.focus {
            None => 0,
            Some(i) => i,
        };
        let next: usize = match dir {
            Direction::Forward => if base + 1 < self.len {
                base + 1
            } else {
                0
            },
            Direction::Backward => if base == 0 {
                self.len - 1
            } else {
                base - 1
            },
        };
        self.focus = Some(next);
    }

    /// Save the current focus and set the sentinel — used when input mode
    /// leaves Interactive.
    pub fn unfocus(&mut self)
        requires
            old(self).wf(),
        ensures
            final(self).wf(),
            final(self).spec_len() == old(self).spec_len(),
            final(self).spec_focus() is None,
            final(self).spec_previous() == old(self).spec_focus(),
    {
        self.previous = self.focus;
        self.focus = None;
    }

    /// Restore the focus saved by `unfocus` — used when input mode re-enters
    /// Interactive.
    pub fn refocus(&mut self)
        requires
            old(self).wf(),
        ensures
            final(self).wf(),
            final(self).spec_len() == old(self).spec_len(),
            final(self).spec_focus() == old(self).spec_previous(),
            final(self).spec_previous() == old(self).spec_previous(),
    {
        self.focus = self.previous;
    }
}

/// After `n` forward movements from a focused position `i`, the focus sits
/// at `(i + n) % len`.
proof fn lemma_forward_positions_value(i: usize, len: usize, n: nat)
    requires
        1 <= len,
        i < len,
    ensures
        advance_positions(Some(i), len, Direction::Forward, n) == Some(
            (((i + n) % (len as int)) as usize),
        ),
    decreases n,
{
    if n == 0 {
        lemma_small_mod(i as nat, len as nat);
    } else {
        lemma_forward_positions_value(i, len, (n - 1) as nat);
        let j = (i + n - 1) % (len as int);
        assert(0 <= j < len);
        // One more movement from j lands on (j + 1) % len, which equals
        // (i + n) % len.
        lemma_add_mod_noop_right(1, i + n - 1, len as int);
        if j + 1 < len {
            lemma_small_mod((j + 1) as nat, len as nat);
        } else {
            lemma_mod_multiples_vanish(1, 0, len as int);
            lemma_small_mod(0, len as nat);
        }
    }
}

/// Closure law: for a cycle of any length and any focused starting region,
/// as many forward movements as the cycle has regions return the focus to
/// its starting value.
pub proof fn lemma_advance_cycle_closure(i: usize, len: usize)
    requires
        1 <= len,
        i < len,
    ensures
        advance_positions(Some(i), len, Direction::Forward, len as nat) == Some(i),
{
    lemma_forward_positions_value(i, len, len as nat);
    lemma_mod_multiples_vanish(1, i as int, len as int);
    lemma_small_mod(i as nat, len as nat);
}

/// Inverse law: from any focused region, one forward movement followed by
/// one backward movement — or the other way around — is the identity.
pub proof fn lemma_advance_inverse(i: usize, len: usize)
    requires
        1 <= len,
        i < len,
    ensures
        advance_position(
            Some(advance_position(Some(i), len, Direction::Forward) as usize),
            len,
            Direction::Backward,
        ) == i as int,
        advance_position(
            Some(advance_position(Some(i), len, Direction::Backward) as usize),
            len,
            Direction::Forward,
        ) == i as int,
{
}

} // verus!
