//! Wrap-around selection cursor over a bounded list.
//!
//! The cursor is the index currently highlighted in an ordered list shown on
//! screen. It is `None` exactly when the owning list is empty; otherwise it
//! is a valid index. Movement cycles rather than clamps: `prev` at index `0`
//! wraps to the last index, `next` at the last index wraps to `0`. From an
//! unset cursor, `prev` treats the position as `0` before decrementing (so it
//! lands on the last index) and `next` lands on `0`. On an empty list both
//! moves leave the cursor unset and do nothing else.

use vstd::arithmetic::div_mod::{
    lemma_add_mod_noop, lemma_mod_bound, lemma_mod_multiples_vanish, lemma_mod_self_0,
    lemma_small_mod,
};
use vstd::prelude::*;

verus! {

/// Whether a cursor position is valid for a list of length `len`:
/// unset exactly on the empty list, otherwise a valid index.
pub open spec fn cursor_wf(sel: Option<usize>, len: nat) -> bool {
    match sel {
        None => len == 0,
        Some(i) => i < len,
    }
}

/// The position after one upward move over a list of length `len`.
pub open spec fn prev_spec(sel: Option<usize>, len: nat) -> Option<usize> {
    if len == 0 {
        None
    } else {
        match sel {
            None => Some((len - 1) as usize),
            Some(i) => if i == 0 {
                Some((len - 1) as usize)
            } else {
                Some((i - 1) as usize)
            },
        }
    }
}

/// The position after one downward move over a list of length `len`.
pub open spec fn next_spec(sel: Option<usize>, len: nat) -> Option<usize> {
    if len == 0 {
        None
    } else {
        match sel {
            None => Some(0usize),
            Some(i) => Some((((i + 1) % (len as int))) as usize),
        }
    }
}

/// The position after `k` downward moves over a list of length `len`.
pub open spec fn iter_next(sel: Option<usize>, len: nat, k: nat) -> Option<usize>
    decreases k,
{
    if k == 0 {
        sel
    } else {
        next_spec(iter_next(sel, len, (k - 1) as nat), len)
    }
}

#[derive(Clone, Copy, Debug, PartialEq, Eq)]
pub struct Cursor {
    pub selected: Option<usize>,
}

impl Cursor {
    /// A cursor freshly placed over a list of length `len`: on the first
    /// element when there is one, unset otherwise.
    pub fn start_of(len: usize) -> (c: Cursor)
        ensures
            c.selected == (if len == 0 { Option::<usize>::None } else { Some(0usize) }),
            cursor_wf(c.selected, len as nat),
    {
        if len == 0 {
            Cursor { selected: None }
        } else {
            Cursor { selected: Some(0) }
        }
    }

    /// Move one step up, wrapping from the first index to the last.
    pub fn prev(self, len: usize) -> (c: Cursor)
        ensures
            c.selected == prev_spec(self.selected, len as nat),
    {
        if len == 0 {
            Cursor { selected: None }
        } else {
            let i = match self.selected {
                None => 0usize,
                Some(i) => i,
            };
            if i == 0 {
                Cursor { selected: Some(len - 1) }
            } else {
                Cursor { selected: Some(i - 1) }
            }
        }
    }

    /// Move one step down, wrapping from the last index to the first; an
    /// out-of-range position advances modulo `len`.
    pub fn next(self, len: usize) -> (c: Cursor)
        ensures
            c.selected == next_spec(self.selected, len as nat),
    {
        if len == 0 {
            Cursor { selected: None }
        } else {
            match self.selected {
                None => Cursor { selected: Some(0) },
                Some(i) => {
                    let j = i % len;
                    let k = if j == len - 1 {
                        0usize
                    } else {
                        j + 1
                    };
                    proof {
                        let li = i as int;
                        let ll = len as int;
                        lemma_mod_bound(li, ll);
                        lemma_add_mod_noop(li, 1, ll);
                        if ll == 1 {
                            lemma_mod_self_0(1);
                        } else {
                            lemma_small_mod(1nat, len as nat);
                        }
                        if j == len - 1 {
                            lemma_mod_self_0(ll);
                        } else {
                            lemma_small_mod((j + 1) as nat, len as nat);
                        }
                    }
                    Cursor { selected: Some(k) }
                },
            }
        }
    }

    /// Whether this cursor is valid for a list of length `len`.
    pub fn in_range(&self, len: usize) -> (r: bool)
        ensures
            r == cursor_wf(self.selected, len as nat),
    {
        match self.selected {
            None => len == 0,
            Some(i) => i < len,
        }
    }
}

/// A move in either direction keeps the cursor valid, and on a non-empty
/// list it always lands on some index.
pub proof fn lemma_moves_preserve_wf(sel: Option<usize>, len: nat)
    requires
        cursor_wf(sel, len),
    ensures
        cursor_wf(prev_spec(sel, len), len),
        cursor_wf(next_spec(sel, len), len),
        len > 0 ==> prev_spec(sel, len) is Some && next_spec(sel, len) is Some,
{
    if len > 0 {
        if let Some(i) = sel {
            lemma_mod_bound(i + 1, len as int);
        }
    }
}

/// Cursor wrap on a non-empty list: moving up and then down returns to the
/// starting index.
pub proof fn lemma_prev_then_next(i: usize, len: usize)
    requires
        0 < len,
        i < len,
    ensures
        next_spec(prev_spec(Some(i), len as nat), len as nat) == Some(i),
{
    if i == 0 {
        lemma_mod_self_0(len as int);
    } else {
        lemma_small_mod(i as nat, len as nat);
    }
}

/// Cursor wrap on a non-empty list: moving down and then up returns to the
/// starting index.
pub proof fn lemma_next_then_prev(i: usize, len: usize)
    requires
        0 < len,
        i < len,
    ensures
        prev_spec(next_spec(Some(i), len as nat), len as nat) == Some(i),
{
    if i == len - 1 {
        lemma_mod_self_0(len as int);
    } else {
        lemma_small_mod((i + 1) as nat, len as nat);
    }
}

/// After `k` downward moves from index `i`, the cursor sits at
/// `(i + k) % len`.
pub proof fn lemma_iter_next_at(i: usize, len: usize, k: nat)
    requires
        i < len,
    ensures
        iter_next(Some(i), len as nat, k) == Some((((i + k) % (len as int))) as usize),
    decreases k,
{
    let ll = len as int;
    if k == 0 {
        lemma_small_mod(i as nat, len as nat);
    } else {
        lemma_iter_next_at(i, len, (k - 1) as nat);
        let m = (i + k - 1) % ll;
        lemma_mod_bound(i + k - 1, ll);
        lemma_add_mod_noop(i + k - 1, 1, ll);
        if ll == 1 {
            lemma_mod_self_0(1);
        } else {
            lemma_small_mod(1nat, len as nat);
        }
        if m + 1 < ll {
            lemma_small_mod((m + 1) as nat, len as nat);
        } else {
            lemma_mod_self_0(ll);
        }
    }
}

/// Cursor wrap on a non-empty list: moving down `len` times returns to the
/// starting index.
pub proof fn lemma_next_full_cycle(i: usize, len: usize)
    requires
        i < len,
    ensures
        iter_next(Some(i), len as nat, len as nat) == Some(i),
{
    lemma_iter_next_at(i, len, len as nat);
    lemma_mod_multiples_vanish(1, i as int, len as int);
    lemma_small_mod(i as nat, len as nat);
}

/// Cursor wrap at the boundary: moving up from index `0` lands on the last
/// index.
pub proof fn lemma_prev_at_zero(len: usize)
    requires
        0 < len,
    ensures
        prev_spec(Some(0usize), len as nat) == Some((len - 1) as usize),
{
}

/// Empty-list safety: on a list of length `0`, both moves yield an unset
/// cursor, whatever the position was before.
pub proof fn lemma_empty_list_moves(sel: Option<usize>)
    ensures
        prev_spec(sel, 0) is None,
        next_spec(sel, 0) is None,
{
}

} // verus!
