//! The scroll window over a list, as integers.
//!
//! A [`Window`] is the arithmetic of the list view: which row is selected,
//! which row is the first one shown, how many rows fit, and how long the
//! list is. Everything the list view promises about selection and scrolling
//! is stated and proved here, free of the items themselves.

use vstd::prelude::*;

verus! {

/// Selection and scroll position over a list of `len` rows, `rows` of which
/// fit on screen.
pub struct Window {
    /// Index of the selected row.
    pub selected: int,
    /// Index of the first row shown.
    pub offset: int,
    /// Number of rows that fit on screen.
    pub rows: int,
    /// Length of the list.
    pub len: int,
}

/// How far two positions are apart.
pub open spec fn distance(a: int, b: int) -> int {
    if a >= b {
        a - b
    } else {
        b - a
    }
}

/// One navigation step.
pub enum Nav {
    /// Move the selection by a signed number of rows.
    Move(int),
    PageUp,
    PageDown,
    Start,
    End,
}

impl Window {
    /// The window has a size and a position that a screen and a list can have.
    pub open spec fn plausible(self) -> bool {
        &&& self.rows >= 1
        &&& self.len >= 0
        &&& self.offset >= 0
    }

    /// The selection is a row of the list, or row 0 of an empty list.
    pub open spec fn selection_in_range(self) -> bool {
        &&& 0 <= self.selected
        &&& self.len > 0 ==> self.selected < self.len
        &&& self.len == 0 ==> self.selected == 0
    }

    /// The selected row is one of the rows shown.
    pub open spec fn selection_visible(self) -> bool {
        self.len > 0 ==> self.offset <= self.selected < self.offset + self.rows
    }

    /// The shown rows do not run past the end of the list while rows before
    /// the window are hidden.
    pub open spec fn no_overscroll(self) -> bool {
        self.offset + self.rows <= if self.len > self.rows {
            self.len
        } else {
            self.rows
        }
    }

    /// All that must hold of a window between two operations.
    pub open spec fn ok(self) -> bool {
        &&& self.plausible()
        &&& self.selection_in_range()
        &&& self.selection_visible()
        &&& self.no_overscroll()
    }

    /// The greatest offset that shows no row past the end of the list.
    pub open spec fn last_start(self) -> int {
        if self.len > self.rows {
            self.len - self.rows
        } else {
            0
        }
    }

    /// The row nearest to the wanted selection that the list has.
    pub open spec fn clamped_selection(self) -> int {
        if self.len <= 0 || self.selected < 0 {
            0
        } else if self.selected >= self.len {
            self.len - 1
        } else {
            self.selected
        }
    }

    /// The window brought back in order: the selection is clamped into the
    /// list, the offset is pulled back from beyond the last start, and then
    /// moved just far enough for the selected row to show.
    pub open spec fn settle(self) -> Window {
        let selected = self.clamped_selection();
        let capped = if self.offset > self.last_start() {
            self.last_start()
        } else {
            self.offset
        };
        let offset = if selected < capped {
            selected
        } else if selected >= capped + self.rows {
            selected - self.rows + 1
        } else {
            capped
        };
        Window { selected, offset, ..self }
    }

    /// The window after asking for row `target`.
    pub open spec fn select(self, target: int) -> Window {
        (Window { selected: target, ..self }).settle()
    }

    /// The window after moving the selection by `delta` rows.
    pub open spec fn move_by(self, delta: int) -> Window {
        self.select(self.selected + delta)
    }

    /// The distance of one page: all rows shown but one.
    pub open spec fn page(self) -> int {
        self.rows - 1
    }

    /// The window after the screen changed to `rows` rows.
    pub open spec fn with_rows(self, rows: int) -> Window {
        (Window { rows, ..self }).settle()
    }

    /// The window after the list changed to `len` rows.
    pub open spec fn with_len(self, len: int) -> Window {
        (Window { len, ..self }).settle()
    }

    /// The window at the top of a list of `len` rows.
    pub open spec fn reset(self, len: int) -> Window {
        Window { selected: 0, offset: 0, len, ..self }
    }

    /// The window after one navigation step.
    pub open spec fn step(self, nav: Nav) -> Window {
        match nav {
            Nav::Move(delta) => self.move_by(delta),
            Nav::PageUp => self.move_by(-self.page()),
            Nav::PageDown => self.move_by(self.page()),
            Nav::Start => self.select(0),
            Nav::End => self.select(self.len - 1),
        }
    }

    /// The window after a sequence of navigation steps, first to last.
    pub open spec fn run(self, navs: Seq<Nav>) -> Window
        decreases navs.len(),
    {
        if navs.len() == 0 {
            self
        } else {
            self.run(navs.drop_last()).step(navs.last())
        }
    }

    /// Index of the first row shown.
    pub open spec fn visible_start(self) -> int {
        if self.offset > self.len {
            self.len
        } else {
            self.offset
        }
    }

    /// Index after the last row shown.
    pub open spec fn visible_end(self) -> int {
        if self.visible_start() + self.rows > self.len {
            self.len
        } else {
            self.visible_start() + self.rows
        }
    }

    /// Settling brings any plausible window in order, and changes neither the
    /// list nor the screen.
    pub proof fn lemma_settle_ok(self)
        requires
            self.plausible(),
        ensures
            self.settle().ok(),
            self.settle().len == self.len,
            self.settle().rows == self.rows,
    {
    }

    /// A window that is in order stays as it is when settled.
    pub proof fn lemma_settle_keeps_ok(self)
        requires
            self.ok(),
        ensures
            self.settle() == self,
    {
    }

    /// Minimal scroll: of all offsets that are in order for the settled
    /// selection, settling picks the one nearest to the offset before.
    pub proof fn lemma_settle_is_minimal(self, other: Window)
        requires
            self.plausible(),
            other.ok(),
            other.len == self.len,
            other.rows == self.rows,
            other.selected == self.settle().selected,
        ensures
            distance(self.settle().offset, self.offset) <= distance(other.offset, self.offset),
    {
    }

    /// Each navigation step leaves the window in order: the selection is a
    /// row of the list (row 0 if the list is empty) and is among the rows
    /// shown. The list and the screen stay as they were.
    pub proof fn lemma_step_ok(self, nav: Nav)
        requires
            self.plausible(),
        ensures
            self.step(nav).ok(),
            self.step(nav).len == self.len,
            self.step(nav).rows == self.rows,
    {
    }

    /// After any sequence of navigation steps on a window that is in order,
    /// the window is in order again.
    pub proof fn lemma_run_ok(self, navs: Seq<Nav>)
        requires
            self.ok(),
        ensures
            self.run(navs).ok(),
            self.run(navs).len == self.len,
            self.run(navs).rows == self.rows,
        decreases navs.len(),
    {
        if navs.len() > 0 {
            self.lemma_run_ok(navs.drop_last());
            self.run(navs.drop_last()).lemma_step_ok(navs.last());
        }
    }

    /// In a window that is in order the selected row lies in the visible
    /// range, at the position that is its distance from the offset.
    pub proof fn lemma_selected_is_shown(self)
        requires
            self.ok(),
            self.len > 0,
        ensures
            self.visible_start() == self.offset,
            self.visible_start() <= self.selected < self.visible_end(),
            self.visible_end() <= self.len,
    {
    }

    /// Changing the number of rows and then moving the selection leaves the
    /// selected row among the rows shown.
    pub proof fn lemma_resize_then_move_shows_selection(self, rows: int, delta: int)
        requires
            self.plausible(),
            rows >= 1,
            self.len > 0,
        ensures
            ({
                let after = self.with_rows(rows).move_by(delta);
                &&& after.ok()
                &&& after.rows == rows
                &&& after.visible_start() <= after.selected < after.visible_end()
            }),
    {
    }

    /// A list that got shorter leaves neither the selection nor the offset
    /// past its new end.
    pub proof fn lemma_shrink_stays_inside(self, len: int)
        requires
            self.plausible(),
            0 <= len,
        ensures
            self.with_len(len).ok(),
            len > 0 ==> self.with_len(len).selected < len && self.with_len(len).offset < len,
            len == 0 ==> self.with_len(len).selected == 0 && self.with_len(len).offset == 0,
    {
    }
}

} // verus!
