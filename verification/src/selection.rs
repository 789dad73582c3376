//! List selection and scrolling arithmetic.
//!
//! Moving through the chat and message lists, keeping the selection visible
//! in a window of `visible_capacity` rows, and finding the selection again
//! after the message list is reloaded.

use vstd::prelude::*;

verus! {

/// The next selected index when moving by one: down clamps at the end, up
/// saturates at zero; an empty list leaves the selection alone.
pub open spec fn spec_next_index(selected: int, len: int, direction: int) -> int {
    if len == 0 {
        selected
    } else if direction > 0 {
        if selected + 1 < len {
            selected + 1
        } else {
            len - 1
        }
    } else {
        if selected > 0 {
            selected - 1
        } else {
            0
        }
    }
}

/// Move the chat selection by one.
pub fn next_chat_index(selected: usize, len: usize, direction: i32) -> (r: usize)
    ensures
        r == spec_next_index(selected as int, len as int, direction as int),
{
    if len == 0 {
        return selected;
    }
    if direction > 0 {
        if selected < len - 1 {
            selected + 1
        } else {
            len - 1
        }
    } else {
        if selected > 0 {
            selected - 1
        } else {
            0
        }
    }
}

/// The scroll offset that keeps `selected` inside the window of
/// `capacity` rows starting at `offset`.
pub open spec fn spec_scroll_adjust(selected: int, offset: int, capacity: int) -> int {
    if selected < offset {
        selected
    } else if selected >= offset + capacity {
        selected - capacity + 1
    } else {
        offset
    }
}

/// Move the message selection by one and keep it visible: when the new index
/// leaves the `visible_capacity`-row window at `offset`, the window is moved
/// just far enough. Nothing changes on an empty list or when the index is
/// already at its end.
pub fn next_message_selection(
    selected: usize,
    offset: usize,
    len: usize,
    direction: i32,
    visible_capacity: usize,
) -> (r: (usize, usize))
    requires
        len > 0 ==> selected < len,
    ensures
        ({
            let ns = spec_next_index(selected as int, len as int, direction as int);
            if len == 0 || ns == selected {
                r.0 == selected && r.1 == offset
            } else {
                r.0 == ns && r.1 == spec_scroll_adjust(ns, offset as int, visible_capacity as int)
            }
        }),
        len > 0 ==> r.0 < len,
        ({
            let ns = spec_next_index(selected as int, len as int, direction as int);
            (len > 0 && ns != selected && visible_capacity > 0) ==> (r.1 <= r.0 < r.1
                + visible_capacity)
        }),
{
    if len == 0 {
        return (selected, offset);
    }
    let new_index = if direction > 0 {
        if selected < len - 1 {
            selected + 1
        } else {
            len - 1
        }
    } else {
        if selected > 0 {
            selected - 1
        } else {
            0
        }
    };
    if new_index == selected {
        return (selected, offset);
    }
    let new_offset = if new_index < offset {
        new_index
    } else if new_index - offset >= visible_capacity {
        new_index - visible_capacity + 1
    } else {
        offset
    };
    (new_index, new_offset)
}

/// Where the selection lands after the message list is reloaded: the first
/// position of the previously selected id when it is still there, the last
/// message otherwise, and zero for an empty list.
pub fn preserve_selection(ids: &Vec<i32>, old_id: Option<i32>) -> (r: usize)
    ensures
        ids@.len() == 0 ==> r == 0,
        ids@.len() > 0 ==> r < ids@.len(),
        (old_id is Some && ids@.contains(old_id->0)) ==> (ids@[r as int] == old_id->0 && (forall|
            j: int,
        | 0 <= j < r ==> ids@[j] != old_id->0)),
        (ids@.len() > 0 && !(old_id is Some && ids@.contains(old_id->0))) ==> r == ids@.len() - 1,
{
    if ids.len() == 0 {
        return 0;
    }
    match old_id {
        Some(id) => {
            let mut i: usize = 0;
            while i < ids.len()
                invariant
                    old_id == Some(id),
                    i <= ids@.len(),
                    forall|j: int| 0 <= j < i ==> ids@[j] != id,
                decreases ids@.len() - i,
            {
                let here = ids[i];
                if here == id {
                    proof {
                        assert(ids@[i as int] == id);
                        assert(ids@.contains(id));
                    }
                    return i;
                }
                i = i + 1;
            }
            proof {
                assert(!ids@.contains(id)) by {
                    if ids@.contains(id) {
                        let j = choose|j: int| 0 <= j < ids@.len() && ids@[j] == id;
                        assert(ids@[j] != id);
                    }
                }
            }
            ids.len() - 1
        },
        None => ids.len() - 1,
    }
}

/// The chat selection after the chat list is reloaded: reset to the first
/// chat when the old index no longer exists.
pub fn clamp_selected_index(selected: usize, len: usize) -> (r: usize)
    ensures
        r == (if selected >= len {
            0int
        } else {
            selected as int
        }),
{
    if selected >= len {
        0
    } else {
        selected
    }
}

} // verus!
