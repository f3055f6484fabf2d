use vstd::prelude::*;

verus! {

// Index arithmetic for a selectable list widget: move the highlighted
// entry down or up, wrapping around at the ends.

/// The index after the given one when moving down a list of `len` entries:
/// one further, wrapping to the top past the last entry.
pub open spec fn wrap_next(i: int, len: int) -> int {
    if len > 0 && i + 1 < len {
        i + 1
    } else {
        0
    }
}

/// The index before the given one when moving up a list of `len` entries:
/// one back, wrapping to the bottom from the first entry.
pub open spec fn wrap_previous(i: int, len: int) -> int {
    if i == 0 {
        if len > 0 {
            len - 1
        } else {
            0
        }
    } else {
        i - 1
    }
}

/// The selection after moving down: the first entry when nothing is
/// selected yet, otherwise the next entry with wrap-around.
pub fn next_index(selected: Option<usize>, len: usize) -> (r: usize)
    ensures
        selected is None ==> r == 0,
        (selected matches Some(i) ==> r as int == wrap_next(i as int, len as int)),
        len > 0 ==> r < len,
{
    match selected {
        None => 0,
        Some(i) => {
            if len > 0 && i < len - 1 {
                i + 1
            } else {
                0
            }
        },
    }
}

/// The selection after moving up: the first entry when nothing is selected
/// yet, otherwise the previous entry with wrap-around.
pub fn previous_index(selected: Option<usize>, len: usize) -> (r: usize)
    ensures
        selected is None ==> r == 0,
        (selected matches Some(i) ==> r as int == wrap_previous(i as int, len as int)),
        (len > 0 && (selected matches Some(i) ==> i < len)) ==> r < len,
{
    match selected {
        None => 0,
        Some(i) => {
            if i == 0 {
                if len > 0 {
                    len - 1
                } else {
                    0
                }
            } else {
                i - 1
            }
        },
    }
}

} // verus!
