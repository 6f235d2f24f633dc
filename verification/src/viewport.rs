//! Scrolling: which part of the buffer is on screen.

use vstd::prelude::*;

verus! {

/// How far from the first position on screen the cursor may stand before
/// the view follows it: the extent less the margin.
pub open spec fn reach(extent: int, margin: int) -> int {
    if extent >= margin {
        extent - margin
    } else {
        0
    }
}

/// The first position on screen along one axis after the view has followed
/// the cursor.
///
/// `extent` positions are shown, from `first` on. A cursor that has come
/// within `margin` of a scrolled view's first position pulls the view back,
/// so that it stands `margin` behind the first position, as far as the start
/// allows. A cursor that has gone further than `reach` behind the first
/// position pulls the view on, so that it stands `reach` behind it. Else the
/// view stays.
pub open spec fn scroll_target(first: int, cursor: int, extent: int, margin: int) -> int {
    if first > 0 && cursor < first + margin {
        if cursor >= margin {
            cursor - margin
        } else {
            0
        }
    } else if cursor - first > reach(extent, margin) {
        cursor - reach(extent, margin)
    } else {
        first
    }
}

/// The first position on screen along one axis, moved so that the cursor
/// stays on screen: with a margin that is greater than nothing and smaller
/// than the extent, the cursor is among the positions shown.
pub fn scrolled(first: usize, cursor: usize, extent: usize, margin: usize) -> (r: usize)
    ensures
        r == scroll_target(first as int, cursor as int, extent as int, margin as int),
        0 < margin < extent ==> r <= cursor < r + extent,
{
    let near = match first.checked_add(margin) {
        Some(edge) => cursor < edge,
        None => true,
    };
    let reach = if extent >= margin {
        extent - margin
    } else {
        0
    };
    if first > 0 && near {
        if cursor >= margin {
            cursor - margin
        } else {
            0
        }
    } else if cursor - first > reach {
        cursor - reach
    } else {
        first
    }
}

} // verus!
