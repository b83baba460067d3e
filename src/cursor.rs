//! Wrap-around selection cursors over lists of a known length.
use vstd::prelude::*;

verus! {

/// A cursor is well formed for a list of `len` items when it is `None` exactly
/// for an empty list, and points into the list otherwise.
pub open spec fn cursor_ok(sel: Option<usize>, len: nat) -> bool {
    match sel {
        None => len == 0,
        Some(i) => i < len,
    }
}

/// The position after `i` in a cyclic list of `len` items.
pub open spec fn next_pos(i: int, len: int) -> int {
    if i + 1 >= len { 0 } else { i + 1 }
}

/// The position before `i` in a cyclic list of `len` items.
pub open spec fn prev_pos(i: int, len: int) -> int {
    if i == 0 { len - 1 } else { i - 1 }
}

/// What "next" does to a cursor over `len` items.
pub open spec fn next_spec(sel: Option<usize>, len: nat) -> Option<usize> {
    if len == 0 {
        None
    } else {
        match sel {
            None => Some(0),
            Some(i) => Some(next_pos(i as int, len as int) as usize),
        }
    }
}

/// What "previous" does to a cursor over `len` items.
pub open spec fn previous_spec(sel: Option<usize>, len: nat) -> Option<usize> {
    if len == 0 {
        None
    } else {
        match sel {
            None => Some(0),
            Some(i) => Some(prev_pos(i as int, len as int) as usize),
        }
    }
}

/// Moves a cursor one step forward, from the last item back to the first.
pub fn next_index(sel: Option<usize>, len: usize) -> (r: Option<usize>)
    requires
        sel matches Some(i) ==> i < len,
    ensures
        r == next_spec(sel, len as nat),
        cursor_ok(r, len as nat),
{
    if len == 0 {
        None
    } else {
        match sel {
            None => Some(0),
            Some(i) => if i + 1 >= len { Some(0) } else { Some(i + 1) },
        }
    }
}

/// Moves a cursor one step back, from the first item round to the last.
pub fn previous_index(sel: Option<usize>, len: usize) -> (r: Option<usize>)
    requires
        sel matches Some(i) ==> i < len,
    ensures
        r == previous_spec(sel, len as nat),
        cursor_ok(r, len as nat),
{
    if len == 0 {
        None
    } else {
        match sel {
            None => Some(0),
            Some(i) => if i == 0 { Some(len - 1) } else { Some(i - 1) },
        }
    }
}

/// Keeps a cursor inside a list whose length may have changed: an old
/// position past the end moves to the last item, and a missing one to the first.
pub fn clamp_index(sel: Option<usize>, len: usize) -> (r: Option<usize>)
    ensures
        r == (if len == 0 {
            None::<usize>
        } else {
            match sel {
                None => Some(0usize),
                Some(i) => Some(if i < len { i } else { (len - 1) as usize }),
            }
        }),
        cursor_ok(r, len as nat),
{
    if len == 0 {
        None
    } else {
        match sel {
            None => Some(0),
            Some(i) => if i < len { Some(i) } else { Some(len - 1) },
        }
    }
}

/// `k` steps forward from `i`.
pub open spec fn next_iter(i: int, len: int, k: nat) -> int
    decreases k,
{
    if k == 0 { i } else { next_pos(next_iter(i, len, (k - 1) as nat), len) }
}

/// `k` steps back from `i`.
pub open spec fn prev_iter(i: int, len: int, k: nat) -> int
    decreases k,
{
    if k == 0 { i } else { prev_pos(prev_iter(i, len, (k - 1) as nat), len) }
}

proof fn lemma_next_iter_formula(i: int, len: int, k: nat)
    requires
        0 <= i < len,
        k <= len,
    ensures
        next_iter(i, len, k) == (if i + k < len { i + k } else { i + k - len }),
    decreases k,
{
    if k > 0 {
        lemma_next_iter_formula(i, len, (k - 1) as nat);
    }
}

proof fn lemma_prev_iter_formula(i: int, len: int, k: nat)
    requires
        0 <= i < len,
        k <= len,
    ensures
        prev_iter(i, len, k) == (if k <= i { i - k } else { i - k + len }),
    decreases k,
{
    if k > 0 {
        lemma_prev_iter_formula(i, len, (k - 1) as nat);
    }
}

/// The cursor after `k` presses of "next".
pub open spec fn next_times(sel: Option<usize>, len: nat, k: nat) -> Option<usize>
    decreases k,
{
    if k == 0 { sel } else { next_spec(next_times(sel, len, (k - 1) as nat), len) }
}

/// The cursor after `k` presses of "previous".
pub open spec fn previous_times(sel: Option<usize>, len: nat, k: nat) -> Option<usize>
    decreases k,
{
    if k == 0 { sel } else { previous_spec(previous_times(sel, len, (k - 1) as nat), len) }
}

proof fn lemma_next_times(i: usize, len: usize, k: nat)
    requires
        i < len,
        k <= len,
    ensures
        next_times(Some(i), len as nat, k) == Some(next_iter(i as int, len as int, k) as usize),
        0 <= next_iter(i as int, len as int, k) < len,
    decreases k,
{
    lemma_next_iter_formula(i as int, len as int, k);
    if k > 0 {
        lemma_next_times(i, len, (k - 1) as nat);
        lemma_next_iter_formula(i as int, len as int, (k - 1) as nat);
    }
}

proof fn lemma_previous_times(i: usize, len: usize, k: nat)
    requires
        i < len,
        k <= len,
    ensures
        previous_times(Some(i), len as nat, k) == Some(prev_iter(i as int, len as int, k) as usize),
        0 <= prev_iter(i as int, len as int, k) < len,
    decreases k,
{
    lemma_prev_iter_formula(i as int, len as int, k);
    if k > 0 {
        lemma_previous_times(i, len, (k - 1) as nat);
        lemma_prev_iter_formula(i as int, len as int, (k - 1) as nat);
    }
}

proof fn lemma_empty_times(k: nat)
    ensures
        next_times(None, 0, k) == None::<usize>,
        previous_times(None, 0, k) == None::<usize>,
    decreases k,
{
    if k > 0 {
        lemma_empty_times((k - 1) as nat);
    }
}

/// Pressing "next" as many times as a list is long brings a cursor back to
/// where it started, and so does pressing "previous" that many times; over an
/// empty list the cursor stays `None` however often either is pressed.
pub proof fn lemma_full_cycle(i: usize, len: usize, k: nat)
    requires
        i < len,
    ensures
        next_times(Some(i), len as nat, len as nat) == Some(i),
        previous_times(Some(i), len as nat, len as nat) == Some(i),
        next_times(None, 0, k) == None::<usize>,
        previous_times(None, 0, k) == None::<usize>,
{
    lemma_next_times(i, len, len as nat);
    lemma_next_iter_formula(i as int, len as int, len as nat);
    lemma_previous_times(i, len, len as nat);
    lemma_prev_iter_formula(i as int, len as int, len as nat);
    lemma_empty_times(k);
}

} // verus!
