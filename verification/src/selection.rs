//! Character-granular text selection across logical lines: an anchor, a
//! tracking end, normalisation into document order, and the half-open
//! containment test used for highlighting.

use vstd::prelude::*;

verus! {

/// The fixed end of a selection: where the drag began.
#[derive(Debug, Clone, Copy, PartialEq, Eq)]
pub struct SelectionStart {
    pub line: usize,
    pub char_idx: usize,
}

/// The tracking end of a selection: where the pointer is now.
#[derive(Debug, Clone, Copy, PartialEq, Eq)]
pub struct SelectionEnd {
    pub line: usize,
    pub char_idx: usize,
}

/// A selection over buffer positions. Stored un-normalised so the drag
/// direction is remembered; normalised on demand for queries.
#[derive(Debug, Clone, PartialEq)]
pub struct Selection {
    pub start: SelectionStart,
    pub end: SelectionEnd,
    pub active: bool,
}

impl Selection {
    /// Whether `start` already precedes (or equals) `end` in document
    /// order.
    pub open spec fn is_forward(self) -> bool {
        self.start.line < self.end.line || (self.start.line == self.end.line
            && self.start.char_idx <= self.end.char_idx)
    }

    /// The selection's endpoints in document order.
    pub open spec fn normalize_spec(self) -> (SelectionStart, SelectionEnd) {
        if self.is_forward() {
            (self.start, self.end)
        } else {
            (
                SelectionStart { line: self.end.line, char_idx: self.end.char_idx },
                SelectionEnd { line: self.start.line, char_idx: self.start.char_idx },
            )
        }
    }

    /// Whether the character at `(line, char_idx)` is covered: interior
    /// lines entirely, the first line from its start position, the last
    /// line up to but excluding its end position.
    pub open spec fn contains_spec(self, line: int, char_idx: int) -> bool {
        let (start, end) = self.normalize_spec();
        &&& self.active
        &&& start.line <= line <= end.line
        &&& (line != start.line || line != end.line || (start.char_idx <= char_idx
            < end.char_idx))
        &&& (line != start.line || line == end.line || start.char_idx <= char_idx)
        &&& (line == start.line || line != end.line || char_idx < end.char_idx)
    }

    /// An inactive selection at the origin.
    pub fn new() -> (r: Selection)
        ensures
            !r.active,
            r.start == (SelectionStart { line: 0, char_idx: 0 }),
            r.end == (SelectionEnd { line: 0, char_idx: 0 }),
    {
        Selection {
            start: SelectionStart { line: 0, char_idx: 0 },
            end: SelectionEnd { line: 0, char_idx: 0 },
            active: false,
        }
    }

    pub fn is_active(&self) -> (b: bool)
        ensures
            b == self.active,
    {
        self.active
    }

    pub fn clear(&mut self)
        ensures
            *final(self) == (Selection { active: false, ..*old(self) }),
    {
        self.active = false;
    }

    /// Anchors a new selection at `(line, char_idx)` with both ends equal.
    pub fn start_selection(&mut self, line: usize, char_idx: usize)
        ensures
            final(self).start == (SelectionStart { line, char_idx }),
            final(self).end == (SelectionEnd { line, char_idx }),
            final(self).active,
    {
        self.start = SelectionStart { line, char_idx };
        self.end = SelectionEnd { line, char_idx };
        self.active = true;
    }

    /// Moves the tracking end; a no-op while no selection is active.
    pub fn update_end(&mut self, line: usize, char_idx: usize)
        ensures
            old(self).active ==> *final(self) == (Selection {
                end: SelectionEnd { line, char_idx },
                ..*old(self)
            }),
            !old(self).active ==> *final(self) == *old(self),
    {
        if self.active {
            self.end = SelectionEnd { line, char_idx };
        }
    }

    pub fn normalize(&self) -> (r: (SelectionStart, SelectionEnd))
        ensures
            r == self.normalize_spec(),
            r.0.line < r.1.line || (r.0.line == r.1.line && r.0.char_idx <= r.1.char_idx),
    {
        if self.start.line < self.end.line || (self.start.line == self.end.line
            && self.start.char_idx <= self.end.char_idx) {
            (self.start, self.end)
        } else {
            (
                SelectionStart { line: self.end.line, char_idx: self.end.char_idx },
                SelectionEnd { line: self.start.line, char_idx: self.start.char_idx },
            )
        }
    }

    pub fn contains_position(&self, line: usize, char_idx: usize) -> (b: bool)
        ensures
            b == self.contains_spec(line as int, char_idx as int),
    {
        if !self.active {
            return false;
        }
        let (start, end) = self.normalize();

        if line < start.line || line > end.line {
            return false;
        }
        if line == start.line && line == end.line {
            char_idx >= start.char_idx && char_idx < end.char_idx
        } else if line == start.line {
            char_idx >= start.char_idx
        } else if line == end.line {
            char_idx < end.char_idx
        } else {
            true
        }
    }

    /// The containment test treats both boundaries half-open: nothing is
    /// selected just before the start position on the start line, and the
    /// end position itself on the end line is not selected.
    pub proof fn lemma_half_open_boundaries(self)
        requires
            self.active,
        ensures
            !self.contains_spec(
                self.normalize_spec().0.line as int,
                self.normalize_spec().0.char_idx - 1,
            ),
            !self.contains_spec(
                self.normalize_spec().1.line as int,
                self.normalize_spec().1.char_idx as int,
            ),
    {
    }
}

} // verus!
