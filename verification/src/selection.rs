//! The highlighted row of the table.

use vstd::prelude::*;

verus! {

/// The row nearest to position `i` in a table of `rows` rows: `i` itself where it
/// names a row, the first row where it lies before, the last row where it lies
/// beyond, and none in an empty table.
pub open spec fn nearest_row(i: int, rows: nat) -> Option<usize> {
    if rows == 0 {
        None
    } else if i < 0 {
        Some(0)
    } else if i < rows {
        Some(i as usize)
    } else {
        Some((rows - 1) as usize)
    }
}

/// A selection forced into a table of `rows` rows: a selected index becomes the
/// nearest row, and no selection stays no selection.
pub open spec fn clamped(index: Option<usize>, rows: nat) -> Option<usize> {
    match index {
        Some(i) => nearest_row(i as int, rows),
        None => None,
    }
}

/// The selection one row further up: the index less one, forced into the table.
/// Without a selection the first row is taken.
pub open spec fn moved_up(index: Option<usize>, rows: nat) -> Option<usize> {
    match index {
        Some(i) => nearest_row(i - 1, rows),
        None => nearest_row(0, rows),
    }
}

/// The selection one row further down: the index plus one, forced into the table.
/// Without a selection the first row is taken.
pub open spec fn moved_down(index: Option<usize>, rows: nat) -> Option<usize> {
    match index {
        Some(i) => nearest_row(i + 1, rows),
        None => nearest_row(0, rows),
    }
}

/// Whether an index can be shown in a table of `rows` rows: it is none or names a row.
pub open spec fn in_range(index: Option<usize>, rows: nat) -> bool {
    index matches Some(i) ==> i < rows
}

/// Which row is highlighted, if any.
#[derive(Clone, Copy, Debug, PartialEq, Eq)]
pub struct Selection {
    pub index: Option<usize>,
}

impl Selection {
    /// No row is selected.
    pub fn new() -> (selection: Self)
        ensures
            selection.index is None,
    {
        Selection { index: None }
    }

    /// The selected row.
    pub fn selected(&self) -> (index: Option<usize>)
        ensures
            index == self.index,
    {
        self.index
    }

    /// Selects a row, or none.
    pub fn select(&mut self, index: Option<usize>)
        ensures
            final(self).index == index,
    {
        self.index = index;
    }

    /// Forces the selection into a table of `rows` rows. To be called whenever the
    /// number of rows has changed.
    pub fn clamp(&mut self, rows: usize)
        ensures
            final(self).index == clamped(old(self).index, rows as nat),
            in_range(final(self).index, rows as nat),
            rows == 0 ==> final(self).index is None,
            rows > 0 && old(self).index is Some ==> final(self).index is Some,
            in_range(old(self).index, rows as nat) ==> final(self).index == old(self).index,
    {
        self.index = clamp_index(self.index, rows);
    }

    /// Moves the selection one row up, without wrapping around.
    pub fn move_up(&mut self, rows: usize)
        ensures
            final(self).index == moved_up(old(self).index, rows as nat),
            in_range(final(self).index, rows as nat),
            rows > 0 ==> final(self).index is Some,
    {
        self.index = match self.index {
            Some(i) => clamp_index(Some(if i > 0 { i - 1 } else { 0 }), rows),
            None => clamp_index(Some(0), rows),
        };
    }

    /// Moves the selection one row down, without wrapping around.
    pub fn move_down(&mut self, rows: usize)
        ensures
            final(self).index == moved_down(old(self).index, rows as nat),
            in_range(final(self).index, rows as nat),
            rows > 0 ==> final(self).index is Some,
    {
        self.index = match self.index {
            Some(i) => clamp_index(Some(if i < usize::MAX { i + 1 } else { i }), rows),
            None => clamp_index(Some(0), rows),
        };
    }
}

/// Forces an index into a table of `rows` rows.
pub fn clamp_index(index: Option<usize>, rows: usize) -> (result: Option<usize>)
    ensures
        result == clamped(index, rows as nat),
        in_range(result, rows as nat),
{
    match index {
        Some(i) => if rows == 0 {
            None
        } else if i < rows {
            Some(i)
        } else {
            Some(rows - 1)
        },
        None => None,
    }
}

/// Clamping leaves a selection that the table can show; it changes nothing that the
/// table could show before, so that clamping twice is clamping once.
pub proof fn lemma_clamped_is_stable(index: Option<usize>, rows: nat)
    ensures
        in_range(clamped(index, rows), rows),
        in_range(index, rows) ==> clamped(index, rows) == index,
        clamped(clamped(index, rows), rows) == clamped(index, rows),
{
}

/// A move never leaves the table: whatever was selected before, a row is selected
/// afterwards as long as there is one.
pub proof fn lemma_moves_stay_in_range(index: Option<usize>, rows: nat)
    ensures
        in_range(moved_up(index, rows), rows),
        in_range(moved_down(index, rows), rows),
        rows > 0 ==> moved_up(index, rows) is Some && moved_down(index, rows) is Some,
        rows == 0 ==> moved_up(index, rows) is None && moved_down(index, rows) is None,
{
}

/// From a row of the table a move goes to the row next to it, and stays where there
/// is none: nothing wraps around.
pub proof fn lemma_moves_are_single_steps(i: usize, rows: nat)
    requires
        i < rows,
    ensures
        moved_up(Some(i), rows) == Some(if i > 0 { (i - 1) as usize } else { i }),
        moved_down(Some(i), rows) == Some(if i + 1 < rows { (i + 1) as usize } else { i }),
{
}

} // verus!
