//! The scrolling window over the model catalogue.
//!
//! The window shows `capacity` consecutive rows of the catalogue starting at
//! `offset`. The highlighted row must always lie inside the window.

use vstd::prelude::*;

verus! {

/// The highlighted row `index` is shown by a window of `capacity` rows that
/// starts at `offset`, within a catalogue of `len` items.
pub open spec fn window_holds(len: nat, index: nat, offset: nat, capacity: nat) -> bool {
    &&& capacity >= 1
    &&& index < len
    &&& offset <= index
    &&& index < offset + capacity
}

/// Where the highlight and the offset go after one step forward.
pub open spec fn forward_spec(len: nat, index: nat, offset: nat, capacity: nat) -> (nat, nat) {
    if index + 1 >= len {
        (index, offset)
    } else if index + 1 == offset + capacity {
        ((index + 1) as nat, (offset + 1) as nat)
    } else {
        ((index + 1) as nat, offset)
    }
}

/// Where the highlight and the offset go after one step backward.
pub open spec fn backward_spec(index: nat, offset: nat) -> (nat, nat) {
    if index == 0 {
        (index, offset)
    } else if index == offset {
        ((index - 1) as nat, (offset - 1) as nat)
    } else {
        ((index - 1) as nat, offset)
    }
}

/// Moves the highlight one row down, scrolling when it leaves the last
/// visible row; on the last item of the catalogue nothing moves.
pub fn advance_forward(len: usize, index: usize, offset: usize, capacity: usize) -> (r: (usize, usize))
    requires
        window_holds(len as nat, index as nat, offset as nat, capacity as nat),
    ensures
        (r.0 as nat, r.1 as nat) == forward_spec(len as nat, index as nat, offset as nat, capacity as nat),
        window_holds(len as nat, r.0 as nat, r.1 as nat, capacity as nat),
{
    if index + 1 >= len {
        (index, offset)
    } else if index + 1 - offset == capacity {
        (index + 1, offset + 1)
    } else {
        (index + 1, offset)
    }
}

/// Moves the highlight one row up, scrolling when it leaves the first
/// visible row; on the first item of the catalogue nothing moves.
pub fn advance_backward(len: usize, index: usize, offset: usize, capacity: usize) -> (r: (usize, usize))
    requires
        window_holds(len as nat, index as nat, offset as nat, capacity as nat),
    ensures
        (r.0 as nat, r.1 as nat) == backward_spec(index as nat, offset as nat),
        window_holds(len as nat, r.0 as nat, r.1 as nat, capacity as nat),
{
    if index == 0 {
        (index, offset)
    } else if index == offset {
        (index - 1, offset - 1)
    } else {
        (index - 1, offset)
    }
}

/// The highlight and the offset after `k` steps forward.
pub open spec fn forward_walk(len: nat, index: nat, offset: nat, capacity: nat, k: nat) -> (nat, nat)
    decreases k,
{
    if k == 0 {
        (index, offset)
    } else {
        let prev = forward_walk(len, index, offset, capacity, (k - 1) as nat);
        forward_spec(len, prev.0, prev.1, capacity)
    }
}

/// The highlight and the offset after `k` steps backward.
pub open spec fn backward_walk(index: nat, offset: nat, k: nat) -> (nat, nat)
    decreases k,
{
    if k == 0 {
        (index, offset)
    } else {
        let prev = backward_walk(index, offset, (k - 1) as nat);
        backward_spec(prev.0, prev.1)
    }
}

/// Walking forward from the first item with the window at the top, step `k`
/// highlights item `k`: the walk meets every item once and in order, the
/// window scrolls by one row per step once the highlight has reached its
/// bottom row, and the highlight never leaves it.
pub proof fn lemma_forward_walk_from_top(len: nat, capacity: nat, k: nat)
    requires
        capacity >= 1,
        k < len,
    ensures
        forward_walk(len, 0, 0, capacity, k) == (k, if k < capacity {
            0
        } else {
            (k + 1 - capacity) as nat
        }),
        window_holds(len, k, forward_walk(len, 0, 0, capacity, k).1, capacity),
    decreases k,
{
    if k > 0 {
        lemma_forward_walk_from_top(len, capacity, (k - 1) as nat);
    }
}

/// Walking backward from the last item with the window at the bottom, step
/// `k` highlights the `k`-th item counted from the end: the walk meets every
/// item once and in reverse order, and the highlight never leaves the window.
pub proof fn lemma_backward_walk_from_bottom(len: nat, capacity: nat, k: nat)
    requires
        capacity >= 1,
        len > capacity,
        k < len,
    ensures
        backward_walk((len - 1) as nat, (len - capacity) as nat, k) == ((len - 1 - k) as nat, if k
            < capacity {
            (len - capacity) as nat
        } else {
            (len - 1 - k) as nat
        }),
        window_holds(
            len,
            (len - 1 - k) as nat,
            backward_walk((len - 1) as nat, (len - capacity) as nat, k).1,
            capacity,
        ),
    decreases k,
{
    if k > 0 {
        lemma_backward_walk_from_bottom(len, capacity, (k - 1) as nat);
    }
}

/// A step forward from the last item, or backward from the first, moves
/// neither the highlight nor the window.
pub proof fn lemma_ends_stay(len: nat, offset: nat, capacity: nat)
    requires
        len >= 1,
    ensures
        forward_spec(len, (len - 1) as nat, offset, capacity) == ((len - 1) as nat, offset),
        backward_spec(0, offset) == (0nat, offset),
{
}

} // verus!
