//! Arithmetic of a cursor in a list.

use vstd::arithmetic::div_mod::{
    lemma_add_mod_noop_right, lemma_mod_add_multiples_vanish, lemma_mod_bound,
    lemma_mod_multiples_vanish, lemma_mod_self_0, lemma_small_mod,
};
use vstd::prelude::*;

verus! {

/// Whether `selected` may be the cursor of a list of `len` rows: it points at
/// a row, or the list is empty and it is 0.
pub open spec fn valid_index(selected: int, len: int) -> bool {
    0 <= selected < len || (len == 0 && selected == 0)
}

/// The cursor one row down, from the last row to the first. An empty list
/// leaves it alone.
pub open spec fn next_index(selected: int, len: int) -> int {
    if len > 0 {
        (selected + 1) % len
    } else {
        selected
    }
}

/// The cursor one row up, from the first row to the last. An empty list
/// leaves it alone.
pub open spec fn previous_index(selected: int, len: int) -> int {
    if len > 0 {
        (selected + len - 1) % len
    } else {
        selected
    }
}

/// The cursor after the list was replaced by one of `len` rows: where it was,
/// if that row still exists, else on the last row; 0 in an empty list.
pub open spec fn clamped_index(selected: int, len: int) -> int {
    if len <= 0 {
        0
    } else if selected < len {
        selected
    } else {
        len - 1
    }
}

/// The cursor after `steps` moves down.
pub open spec fn moved_down(selected: int, len: int, steps: nat) -> int
    decreases steps,
{
    if steps == 0 {
        selected
    } else {
        moved_down(next_index(selected, len), len, (steps - 1) as nat)
    }
}

/// The cursor after `steps` moves up.
pub open spec fn moved_up(selected: int, len: int, steps: nat) -> int
    decreases steps,
{
    if steps == 0 {
        selected
    } else {
        moved_up(previous_index(selected, len), len, (steps - 1) as nat)
    }
}

/// Inside a list that has rows, a move down goes to the next row or from the
/// last to the first, and a move up goes to the row before or from the first
/// to the last.
pub proof fn lemma_moves_by_cases(selected: int, len: int)
    requires
        0 <= selected < len,
    ensures
        next_index(selected, len) == (if selected + 1 == len {
            0
        } else {
            selected + 1
        }),
        previous_index(selected, len) == (if selected == 0 {
            len - 1
        } else {
            selected - 1
        }),
{
    if selected + 1 == len {
        lemma_mod_self_0(len);
    } else {
        lemma_small_mod((selected + 1) as nat, len as nat);
    }
    if selected == 0 {
        lemma_small_mod((len - 1) as nat, len as nat);
    } else {
        lemma_mod_add_multiples_vanish(selected - 1, len);
        lemma_small_mod((selected - 1) as nat, len as nat);
    }
}

/// Moves a cursor one row down, from the last row to the first.
pub fn step_down(selected: usize, len: usize) -> (moved: usize)
    requires
        valid_index(selected as int, len as int),
    ensures
        moved == next_index(selected as int, len as int),
        valid_index(moved as int, len as int),
{
    if len > 0 {
        proof {
            lemma_moves_by_cases(selected as int, len as int);
        }
        (selected + 1) % len
    } else {
        selected
    }
}

/// Moves a cursor one row up, from the first row to the last.
pub fn step_up(selected: usize, len: usize) -> (moved: usize)
    requires
        valid_index(selected as int, len as int),
    ensures
        moved == previous_index(selected as int, len as int),
        valid_index(moved as int, len as int),
{
    if len > 0 {
        proof {
            lemma_moves_by_cases(selected as int, len as int);
        }
        if selected == 0 {
            len - 1
        } else {
            selected - 1
        }
    } else {
        selected
    }
}

/// Fits a cursor to a list of `len` rows that took the place of its own.
pub fn clamp(selected: usize, len: usize) -> (kept: usize)
    ensures
        kept == clamped_index(selected as int, len as int),
        valid_index(kept as int, len as int),
{
    if len == 0 {
        0
    } else if selected < len {
        selected
    } else {
        len - 1
    }
}

/// In a list that has rows, `steps` moves down from a row lead to the row
/// `steps` further on, counted round the list.
pub proof fn lemma_moved_down(selected: int, len: int, steps: nat)
    requires
        0 <= selected < len,
    ensures
        moved_down(selected, len, steps) == (selected + steps) % len,
    decreases steps,
{
    if steps == 0 {
        lemma_small_mod(selected as nat, len as nat);
    } else {
        let next = next_index(selected, len);
        lemma_mod_bound(selected + 1, len);
        lemma_moved_down(next, len, (steps - 1) as nat);
        lemma_add_mod_noop_right(steps - 1, selected + 1, len);
        assert((steps - 1) + (selected + 1) == selected + steps);
        assert((steps - 1) + next == next + (steps - 1) as nat);
    }
}

/// In a list that has rows, `steps` moves up from a row lead to the row
/// `steps` further back, counted round the list.
pub proof fn lemma_moved_up(selected: int, len: int, steps: nat)
    requires
        0 <= selected < len,
    ensures
        moved_up(selected, len, steps) == (selected + steps * (len - 1)) % len,
    decreases steps,
{
    if steps == 0 {
        assert(steps * (len - 1) == 0) by (nonlinear_arith)
            requires
                steps == 0,
        ;
        lemma_small_mod(selected as nat, len as nat);
    } else {
        let previous = previous_index(selected, len);
        let rest = (steps - 1) * (len - 1);
        lemma_mod_bound(selected + len - 1, len);
        lemma_moved_up(previous, len, (steps - 1) as nat);
        assert(steps * (len - 1) == rest + (len - 1)) by (nonlinear_arith)
            requires
                rest == (steps - 1) * (len - 1),
        ;
        lemma_add_mod_noop_right(rest, selected + len - 1, len);
        assert(rest + (selected + len - 1) == selected + steps * (len - 1));
        assert(rest + previous == previous + ((steps - 1) as nat) * (len - 1));
    }
}

/// As many moves down as the list has rows bring the cursor back to where
/// it was.
pub proof fn lemma_moving_down_comes_round(selected: int, len: int)
    requires
        valid_index(selected, len),
    ensures
        moved_down(selected, len, len as nat) == selected,
{
    if len > 0 {
        lemma_moved_down(selected, len, len as nat);
        lemma_mod_add_multiples_vanish(selected, len);
        lemma_small_mod(selected as nat, len as nat);
        assert(selected + len as nat == len + selected);
    } else {
        assert(moved_down(selected, len, 0) == selected);
    }
}

/// As many moves up as the list has rows bring the cursor back to where it
/// was.
pub proof fn lemma_moving_up_comes_round(selected: int, len: int)
    requires
        valid_index(selected, len),
    ensures
        moved_up(selected, len, len as nat) == selected,
{
    if len > 0 {
        lemma_moved_up(selected, len, len as nat);
        lemma_mod_multiples_vanish(len - 1, selected, len);
        lemma_small_mod(selected as nat, len as nat);
        assert(selected + (len as nat) * (len - 1) == len * (len - 1) + selected);
    } else {
        assert(moved_up(selected, len, 0) == selected);
    }
}

/// A move down and a move up undo each other.
pub proof fn lemma_up_undoes_down(selected: int, len: int)
    requires
        valid_index(selected, len),
    ensures
        previous_index(next_index(selected, len), len) == selected,
        next_index(previous_index(selected, len), len) == selected,
{
    if len > 0 {
        lemma_moves_by_cases(selected, len);
        lemma_moves_by_cases(next_index(selected, len), len);
        lemma_moves_by_cases(previous_index(selected, len), len);
    }
}

} // verus!
