//! Vertical scrolling of a list that is longer than its viewport.

use vstd::prelude::*;

verus! {

/// First visible row after a render, given the first visible row before it
/// (`top`), the viewport's `height` in rows, the selected row and the number
/// of rows (`count`).
///
/// A list that fits the viewport is shown from its first row; so is any list
/// while the viewport has no rows. Otherwise the window moves just far enough
/// to hold the selection: up to it, down until it is the last visible row, or
/// not at all.
pub open spec fn scroll_top(top: int, height: int, selection: int, count: int) -> int {
    if height <= 0 || count <= height {
        0
    } else if selection < top {
        selection
    } else if selection >= top + height {
        selection - height + 1
    } else {
        top
    }
}

/// Largest first visible row at which the window still ends within the list.
pub open spec fn scroll_max_top(height: int, count: int) -> int {
    if height <= 0 || count <= height {
        0
    } else {
        count - height
    }
}

/// Whether row `selection` lies in the window of `height` rows from `top`.
pub open spec fn in_window(top: int, height: int, selection: int) -> bool {
    top <= selection < top + height
}

/// After a render the selection is inside the window, whatever the window
/// was before.
pub proof fn lemma_selection_in_window(top: int, height: int, selection: int, count: int)
    requires
        top >= 0,
        height > 0,
        0 <= selection < count,
    ensures
        in_window(scroll_top(top, height, selection, count), height, selection),
        0 <= scroll_top(top, height, selection, count),
{
}

/// A selection inside the window leaves the window where it is, as long as
/// the list is longer than the viewport.
pub proof fn lemma_scroll_unchanged_in_window(top: int, height: int, selection: int, count: int)
    requires
        in_window(top, height, selection),
        count > height,
    ensures
        scroll_top(top, height, selection, count) == top,
{
}

/// Scrolling is minimal: once a frame has been rendered, a selection that
/// moves to another row of that frame's window does not move the window in
/// the next frame.
pub proof fn lemma_scroll_minimal(
    top: int,
    height: int,
    count: int,
    selection: int,
    moved: int,
)
    requires
        in_window(scroll_top(top, height, selection, count), height, moved),
    ensures
        scroll_top(scroll_top(top, height, selection, count), height, moved, count) == scroll_top(
            top,
            height,
            selection,
            count,
        ),
{
}

/// When the window has to move, it moves by the least amount that shows the
/// selection: the selection becomes its first or its last row.
pub proof fn lemma_scroll_least_move(top: int, height: int, selection: int, count: int)
    requires
        count > height > 0,
        !in_window(top, height, selection),
    ensures
        selection < top ==> scroll_top(top, height, selection, count) == selection,
        selection >= top + height ==> scroll_top(top, height, selection, count) + height - 1
            == selection,
{
}

/// Where the thumb of a scroll bar stands: at `position` of `range`, a
/// fraction between nought and one.
#[derive(Clone, Copy, Debug, PartialEq, Eq, Structural)]
pub struct Thumb {
    pub position: usize,
    /// At least one.
    pub range: usize,
}

/// The thumb for a window whose first row is `top` and may be `max_top` at
/// most: `top` of `max_top`. The range is at least one, and the position is
/// held to the range.
pub open spec fn thumb_at(top: int, max_top: int) -> Thumb {
    let range = if max_top <= 0 {
        1
    } else {
        max_top
    };
    Thumb {
        position: (if top <= range {
            top
        } else {
            range
        }) as usize,
        range: range as usize,
    }
}

/// First visible row of a list.
#[derive(Clone, Copy, Debug)]
pub struct VerticalScroll {
    top: usize,
}

impl VerticalScroll {
    /// First visible row.
    pub closed spec fn top(&self) -> usize {
        self.top
    }

    /// A scroller at the first row.
    pub fn new() -> (r: Self)
        ensures
            r.top() == 0,
    {
        Self { top: 0 }
    }

    /// First visible row.
    pub fn get_top(&self) -> (r: usize)
        ensures
            r == self.top(),
    {
        self.top
    }

    /// Back to the first row.
    pub fn reset(&mut self)
        ensures
            final(self).top() == 0,
    {
        self.top = 0;
    }

    /// Moves the window for a frame of `visual_height` rows over
    /// `selection_max` rows of which row `selection` is selected, and returns
    /// the first visible row.
    pub fn update(&mut self, selection: usize, selection_max: usize, visual_height: usize) -> (r:
        usize)
        ensures
            r == final(self).top(),
            final(self).top() == scroll_top(
                old(self).top() as int,
                visual_height as int,
                selection as int,
                selection_max as int,
            ),
    {
        let new_top = calc_scroll_top(self.top, visual_height, selection, selection_max);
        self.top = new_top;
        new_top
    }

    /// Where the scroll thumb stands in a frame of `visual_height` rows over
    /// `selection_max` rows.
    pub fn thumb(&self, selection_max: usize, visual_height: usize) -> (r: Thumb)
        ensures
            r == thumb_at(
                self.top() as int,
                scroll_max_top(visual_height as int, selection_max as int),
            ),
            r.position <= r.range,
            r.range >= 1,
    {
        let range = if visual_height == 0 || selection_max <= visual_height {
            1
        } else {
            selection_max - visual_height
        };
        let position = if self.top <= range {
            self.top
        } else {
            range
        };
        Thumb { position, range }
    }
}

/// First visible row for the next frame; see [`scroll_top`].
pub fn calc_scroll_top(
    current_top: usize,
    height_in_lines: usize,
    selection: usize,
    selection_max: usize,
) -> (r: usize)
    ensures
        r == scroll_top(
            current_top as int,
            height_in_lines as int,
            selection as int,
            selection_max as int,
        ),
{
    if height_in_lines == 0 || selection_max <= height_in_lines {
        0
    } else if selection < current_top {
        selection
    } else if selection - current_top >= height_in_lines {
        selection - height_in_lines + 1
    } else {
        current_top
    }
}

} // verus!
