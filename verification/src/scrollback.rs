//! The scrollback viewport engine: a bounded buffer of styled lines
//! presented through a scrolled, wrapped or clipped viewport, with
//! mouse-driven selection, drag-scroll, live search and a dirty flag
//! gating redraws.
//!
//! All state here is plain data. Anything the surrounding application
//! must supply from outside — the clock, the painted surface, decoded
//! input events, the platform clipboard — enters and leaves through
//! plain values: times are milliseconds of a monotonic clock, events are
//! this crate's own event types, and a frame is painted from the rows
//! that [`ScrollbackWidget::visible_rows`] computes.

use std::collections::VecDeque;
use vstd::prelude::*;

use crate::search::is_match_at;
use crate::selection::Selection;
use crate::style::{Color, Style, StyledChar, StyledText};

verus! {

/// A rectangular screen region, in cells.
#[derive(Debug, Clone, Copy, PartialEq, Eq, Structural)]
pub struct Rect {
    pub x: u16,
    pub y: u16,
    pub width: u16,
    pub height: u16,
}

impl Rect {
    pub fn new(x: u16, y: u16, width: u16, height: u16) -> (r: Rect)
        ensures
            r == (Rect { x, y, width, height }),
    {
        Rect { x, y, width, height }
    }

    /// The region one cell in from every edge: the inside of a border.
    pub open spec fn inner_spec(self) -> Rect {
        Rect {
            x: (self.x + 1) as u16,
            y: (self.y + 1) as u16,
            width: if self.width >= 2 {
                (self.width - 2) as u16
            } else {
                0
            },
            height: if self.height >= 2 {
                (self.height - 2) as u16
            } else {
                0
            },
        }
    }

    pub fn inner(self) -> (r: Rect)
        requires
            self.x < u16::MAX,
            self.y < u16::MAX,
        ensures
            r == self.inner_spec(),
    {
        Rect {
            x: self.x + 1,
            y: self.y + 1,
            width: if self.width >= 2 {
                self.width - 2
            } else {
                0
            },
            height: if self.height >= 2 {
                self.height - 2
            } else {
                0
            },
        }
    }
}

/// The direction of an active drag-scroll, one of nine zones.
#[derive(Debug, Clone, Copy, PartialEq, Eq, Structural)]
pub enum DragDirection {
    Idle,
    Up,
    Down,
    Left,
    Right,
    UpLeft,
    UpRight,
    DownLeft,
    DownRight,
}

impl DragDirection {
    pub fn is_some(&self) -> (b: bool)
        ensures
            b == (*self != DragDirection::Idle),
    {
        !matches!(self, DragDirection::Idle)
    }
}

/// Which scrollbar thumb a drag started in, and the pointer offset into
/// the thumb at grab time, so the thumb does not jump under the cursor.
#[derive(Debug, Clone, Copy, PartialEq, Eq, Structural)]
pub enum ScrollbarDrag {
    Idle,
    Vertical(u16),
    Horizontal(u16),
}

/// The search box lifecycle: closed, taking input, or open with input
/// focus handed back to the scrollback.
#[derive(Debug, Clone, Copy, PartialEq, Eq, Structural)]
pub enum SearchMode {
    Closed,
    Input,
    Open,
}

impl SearchMode {
    pub fn is_active(self) -> (b: bool)
        ensures
            b == (self != SearchMode::Closed),
    {
        !matches!(self, SearchMode::Closed)
    }

    pub fn is_closed(self) -> (b: bool)
        ensures
            b == (self == SearchMode::Closed),
    {
        matches!(self, SearchMode::Closed)
    }

    pub fn has_focus(self) -> (b: bool)
        ensures
            b == (self == SearchMode::Input),
    {
        matches!(self, SearchMode::Input)
    }
}

/// What the pointer is over, for choosing a cursor shape.
#[derive(Debug, Clone, Copy, PartialEq, Eq, Structural)]
pub enum CursorState {
    Arrow,
    Text,
    Selecting,
    LineNumber,
}

/// The mode flags shown in the widget's frame; the application renders
/// them as text.
#[derive(Debug, Clone, Copy, PartialEq, Eq, Structural)]
pub struct StatusInfo {
    pub wrap: bool,
    pub searching: bool,
    pub filtering: bool,
    pub selecting: bool,
    pub auto_scroll: bool,
    pub lines_from_bottom: usize,
}

/// Copies a line of cells.
fn clone_cells(v: &Vec<StyledChar>) -> (r: Vec<StyledChar>)
    ensures
        r@ == v@,
{
    let mut r: Vec<StyledChar> = Vec::new();
    let mut i: usize = 0;
    while i < v.len()
        invariant
            i <= v@.len(),
            r@ == v@.subrange(0, i as int),
        decreases v@.len() - i,
    {
        let c = v[i];
        r.push(c);
        proof {
            assert(r@ =~= v@.subrange(0, i + 1));
        }
        i = i + 1;
    }
    proof {
        assert(v@.subrange(0, v@.len() as int) =~= v@);
    }
    r
}

/// A multi-purpose scrollback widget with optional line wrapping, search,
/// text selection and both vertical and horizontal scrolling.
pub struct ScrollbackWidget {
    pub scrollbar_drag: ScrollbarDrag,

    pub style: Style,
    pub line_number_style: Style,
    pub border_color: Color,
    pub scrollbar_color: Color,

    pub buffer: VecDeque<Vec<StyledChar>>,
    pub line_capacity: usize,
    pub lengths: VecDeque<usize>,
    pub max_line_width: usize,

    pub wrap_lines: bool,
    pub wrap_indent: usize,
    pub wrapped_lines: Vec<(usize, usize, usize)>,
    pub wrapped_lines_width: usize,

    pub vertical_offset: usize,
    pub horizontal_offset: usize,
    pub auto_scroll: bool,

    pub selection: Selection,
    pub mouse_is_down: bool,

    pub cursor_state: CursorState,
    pub last_mouse_pos: Option<(u16, u16)>,

    pub redraw_requested: bool,
    pub is_focused: bool,
    pub show_line_numbers: bool,
    pub dev_mode: bool,

    pub last_area: Rect,
    pub inner_width: usize,
    pub inner_height: usize,

    pub title: String,
    pub status: StatusInfo,

    pub waiting_for_g: bool,
    pub last_g_press_ms: u64,

    pub search_mode: SearchMode,
    pub search_term: Vec<char>,
    pub search_matches: Vec<(usize, usize)>,
    pub current_match: usize,

    pub drag_scroll_timer_ms: Option<u64>,
    pub drag_direction: DragDirection,
    pub last_mouse_in_bounds: bool,

    pub pending_copy: Option<String>,
}

impl ScrollbackWidget {
    /// The buffer's logical lines.
    pub open spec fn lines(self) -> Seq<Seq<StyledChar>> {
        self.buffer@.map_values(|v: Vec<StyledChar>| v@)
    }

    /// The single-append eviction threshold: a capacity of zero still
    /// admits one line, since one append always pushes.
    pub open spec fn cap_bound(self) -> int {
        if self.line_capacity == 0 {
            1
        } else {
            self.line_capacity as int
        }
    }

    /// Rows of the presented content: wrapped segments in wrap mode, one
    /// row per logical line otherwise.
    pub open spec fn line_count_spec(self) -> int {
        if self.wrap_lines {
            self.wrapped_lines@.len() as int
        } else {
            self.buffer@.len() as int
        }
    }

    /// The largest legal vertical offset.
    pub open spec fn max_scroll_spec(self) -> int {
        if self.line_count_spec() > self.inner_height {
            self.line_count_spec() - self.inner_height
        } else {
            0
        }
    }

    /// The selection, when active, stays inside the buffer: its lines
    /// exist and its character indices never pass the line ends.
    pub open spec fn sel_ok(self) -> bool {
        self.selection.active ==> {
            &&& self.selection.start.line < self.buffer@.len()
            &&& self.selection.end.line < self.buffer@.len()
            &&& self.selection.start.char_idx <= self.buffer@[self.selection.start.line as int]@.len()
            &&& self.selection.end.char_idx <= self.buffer@[self.selection.end.line as int]@.len()
        }
    }

    /// The match list is exactly the ordered set of case-insensitive
    /// occurrences of the term over the whole buffer, and empty when the
    /// term is empty.
    pub open spec fn matches_ok(self) -> bool {
        &&& (self.search_term@.len() == 0 ==> self.search_matches@.len() == 0)
        &&& (self.search_term@.len() > 0 ==> {
            &&& forall|k: int|
                0 <= k && k < self.search_matches@.len() ==> {
                    &&& (#[trigger] self.search_matches@[k]).0 < self.buffer@.len()
                    &&& is_match_at(
                        self.buffer@[self.search_matches@[k].0 as int]@,
                        self.search_term@,
                        self.search_matches@[k].1 as int,
                    )
                }
            &&& forall|l: int, s: int|
                0 <= l && l < self.buffer@.len() && #[trigger] is_match_at(
                    self.buffer@[l]@,
                    self.search_term@,
                    s,
                ) ==> self.search_matches@.contains((l as usize, s as usize))
            &&& forall|k1: int, k2: int|
                0 <= k1 && k1 < k2 && k2 < self.search_matches@.len() ==> (
                (#[trigger] self.search_matches@[k1]).0 < (#[trigger] self.search_matches@[k2]).0
                    || (self.search_matches@[k1].0 == self.search_matches@[k2].0
                    && self.search_matches@[k1].1 < self.search_matches@[k2].1))
        })
    }

    /// Well-formedness: the length cache mirrors the buffer, the buffer
    /// respects its capacity, `max_line_width` dominates every line, the
    /// horizontal offset stays under it, and selection and match list
    /// stay consistent with the buffer.
    pub open spec fn wf(self) -> bool {
        &&& self.lengths@.len() == self.buffer@.len()
        &&& forall|i: int|
            0 <= i && i < self.buffer@.len() ==> (#[trigger] self.lengths@[i])
                == self.buffer@[i]@.len()
        &&& self.buffer@.len() <= self.cap_bound()
        &&& forall|i: int|
            0 <= i && i < self.buffer@.len() ==> (#[trigger] self.buffer@[i]@.len())
                <= self.max_line_width
        &&& self.horizontal_offset <= self.max_line_width
        &&& self.sel_ok()
        &&& self.matches_ok()
    }

    /// A new scrollback holding at most `capacity` lines, wrap mode on,
    /// following the tail.
    pub fn new(title: String, capacity: usize) -> (w: ScrollbackWidget)
        ensures
            w.wf(),
            w.buffer@.len() == 0,
            w.line_capacity == capacity,
            w.wrap_lines,
            w.auto_scroll,
            w.vertical_offset == 0,
            w.horizontal_offset == 0,
            !w.selection.active,
            w.search_term@.len() == 0,
            w.redraw_requested,
    {
        let mut w = ScrollbackWidget {
            scrollbar_drag: ScrollbarDrag::Idle,

            style: Style::plain(),
            line_number_style: Style::plain().with_fg(Color::DarkGray),
            border_color: Color::Gray,
            scrollbar_color: Color::Gray,

            buffer: VecDeque::new(),
            line_capacity: capacity,
            lengths: VecDeque::new(),
            max_line_width: 0,

            wrap_lines: true,
            wrap_indent: 0,
            wrapped_lines: Vec::new(),
            wrapped_lines_width: 0,

            vertical_offset: 0,
            horizontal_offset: 0,
            auto_scroll: true,

            selection: Selection::new(),
            mouse_is_down: false,

            cursor_state: CursorState::Arrow,
            last_mouse_pos: None,

            redraw_requested: true,
            is_focused: false,
            show_line_numbers: true,
            dev_mode: false,

            last_area: Rect { x: 0, y: 0, width: 1, height: 1 },
            inner_width: 80,
            inner_height: 1,

            title,
            status: StatusInfo {
                wrap: true,
                searching: false,
                filtering: false,
                selecting: false,
                auto_scroll: true,
                lines_from_bottom: 0,
            },

            waiting_for_g: false,
            last_g_press_ms: 0,

            search_mode: SearchMode::Closed,
            search_term: Vec::new(),
            search_matches: Vec::new(),
            current_match: 0,

            drag_scroll_timer_ms: None,
            drag_direction: DragDirection::Idle,
            last_mouse_in_bounds: true,

            pending_copy: None,
        };
        w.recalculate_status();
        w
    }

    /// A scrollback with no title.
    pub fn untitled(capacity: usize) -> (w: ScrollbackWidget)
        ensures
            w.wf(),
            w.buffer@.len() == 0,
            w.line_capacity == capacity,
            w.wrap_lines,
            w.auto_scroll,
    {
        Self::new(String::new(), capacity)
    }

    /// Marks the widget dirty.
    fn request_redraw(&mut self)
        ensures
            *final(self) == (ScrollbackWidget { redraw_requested: true, ..*old(self) }),
    {
        self.redraw_requested = true;
    }

    /// Force the widget to be considered dirty.
    pub fn redraw(&mut self)
        requires
            old(self).wf(),
        ensures
            final(self).wf(),
            *final(self) == (ScrollbackWidget { redraw_requested: true, ..*old(self) }),
    {
        self.request_redraw();
    }

    pub fn need_draw(&self) -> (b: bool)
        ensures
            b == (self.redraw_requested || (self.mouse_is_down && self.drag_direction
                != DragDirection::Idle)),
    {
        self.redraw_requested || self.is_drag_scrolling()
    }

    pub fn is_drag_scrolling(&self) -> (b: bool)
        ensures
            b == (self.mouse_is_down && self.drag_direction != DragDirection::Idle),
    {
        self.mouse_is_down && self.drag_direction.is_some()
    }

    /// Recomputes the frame's mode flags; marks the widget dirty exactly
    /// when they changed.
    fn recalculate_status(&mut self)
        ensures
            *final(self) == (ScrollbackWidget {
                status: final(self).status,
                redraw_requested: final(self).redraw_requested,
                ..*old(self)
            }),
            final(self).status == old(self).status_spec(),
            final(self).redraw_requested == (old(self).redraw_requested || final(self).status
                != old(self).status),
    {
        let lines_from_bottom = if self.auto_scroll {
            0
        } else {
            self.lines_from_bottom()
        };
        let new_status = StatusInfo {
            wrap: self.wrap_lines,
            searching: self.search_mode.is_active(),
            filtering: self.search_mode.is_active() && self.search_term.len() > 0,
            selecting: self.selection.is_active(),
            auto_scroll: self.auto_scroll,
            lines_from_bottom,
        };
        if new_status != self.status {
            self.status = new_status;
            self.request_redraw();
        }
    }

    /// What the frame's mode flags say of the current state.
    pub open spec fn status_spec(self) -> StatusInfo {
        StatusInfo {
            wrap: self.wrap_lines,
            searching: self.search_mode != SearchMode::Closed,
            filtering: self.search_mode != SearchMode::Closed && self.search_term@.len() > 0,
            selecting: self.selection.active,
            auto_scroll: self.auto_scroll,
            lines_from_bottom: if self.auto_scroll {
                0
            } else {
                self.lines_from_bottom_spec() as usize
            },
        }
    }

    pub open spec fn lines_from_bottom_spec(self) -> int {
        if self.line_count_spec() > self.vertical_offset + self.inner_height {
            self.line_count_spec() - (self.vertical_offset + self.inner_height)
        } else {
            0
        }
    }

    /// How many presented rows lie below the bottom of the viewport.
    pub fn lines_from_bottom(&self) -> (n: usize)
        ensures
            n == self.lines_from_bottom_spec(),
    {
        let total = self.line_count();
        if self.vertical_offset > usize::MAX - self.inner_height {
            // the viewport bottom lies beyond any possible row count
            0
        } else {
            let bottom = self.vertical_offset + self.inner_height;
            if total > bottom {
                total - bottom
            } else {
                0
            }
        }
    }

    pub fn line_count(&self) -> (n: usize)
        ensures
            n == self.line_count_spec(),
    {
        if self.wrap_lines {
            self.wrapped_lines.len()
        } else {
            self.buffer.len()
        }
    }

    pub fn max_scroll_position(&self) -> (n: usize)
        ensures
            n == self.max_scroll_spec(),
    {
        let lc = self.line_count();
        if lc > self.inner_height {
            lc - self.inner_height
        } else {
            0
        }
    }
}


impl ScrollbackWidget {
    /// Sets the vertical offset, reporting whether it changed.
    fn set_vertical_offset(&mut self, vertical_offset: usize) -> (changed: bool)
        ensures
            changed == (vertical_offset != old(self).vertical_offset),
            *final(self) == (ScrollbackWidget {
                vertical_offset,
                status: final(self).status,
                redraw_requested: final(self).redraw_requested,
                ..*old(self)
            }),
            old(self).redraw_requested ==> final(self).redraw_requested,
            changed ==> final(self).redraw_requested,
            !changed ==> *final(self) == *old(self),
    {
        if vertical_offset != self.vertical_offset {
            self.vertical_offset = vertical_offset;
            self.recalculate_status();
            self.request_redraw();
            true
        } else {
            false
        }
    }

    /// Switches tail-following on or off; the offset itself is not
    /// touched.
    fn set_auto_scroll(&mut self, enable: bool)
        ensures
            final(self).auto_scroll == enable,
            *final(self) == (ScrollbackWidget {
                auto_scroll: enable,
                status: final(self).status,
                redraw_requested: final(self).redraw_requested,
                ..*old(self)
            }),
            old(self).redraw_requested ==> final(self).redraw_requested,
            old(self).auto_scroll != enable ==> final(self).redraw_requested,
            old(self).auto_scroll == enable ==> *final(self) == *old(self),
    {
        if self.auto_scroll != enable {
            self.auto_scroll = enable;
            self.recalculate_status();
            self.request_redraw();
        }
    }

    /// While following the tail, keeps the viewport at the bottom.
    fn check_and_auto_scroll(&mut self)
        ensures
            *final(self) == (ScrollbackWidget {
                vertical_offset: final(self).vertical_offset,
                status: final(self).status,
                redraw_requested: final(self).redraw_requested,
                ..*old(self)
            }),
            final(self).vertical_offset as int == if old(self).auto_scroll {
                old(self).max_scroll_spec()
            } else {
                old(self).vertical_offset as int
            },
            old(self).redraw_requested ==> final(self).redraw_requested,
    {
        if self.auto_scroll {
            let m = self.max_scroll_position();
            self.set_vertical_offset(m);
        }
    }

    /// Scrolls up by `offset` rows, stopping at the top; moving away
    /// from the current position detaches from the tail.
    pub fn scroll_up(&mut self, offset: usize)
        requires
            old(self).wf(),
        ensures
            final(self).wf(),
            *final(self) == (ScrollbackWidget {
                vertical_offset: final(self).vertical_offset,
                auto_scroll: final(self).auto_scroll,
                status: final(self).status,
                redraw_requested: final(self).redraw_requested,
                ..*old(self)
            }),
            final(self).vertical_offset as int == if old(self).vertical_offset >= offset {
                old(self).vertical_offset - offset
            } else {
                0int
            },
            final(self).auto_scroll == (old(self).auto_scroll && final(self).vertical_offset
                == old(self).vertical_offset),
            old(self).vertical_offset <= old(self).max_scroll_spec() ==> final(self).vertical_offset <= final(self).max_scroll_spec(),
            final(self).vertical_offset != old(self).vertical_offset ==> final(self).redraw_requested,
    {
        let target = if self.vertical_offset >= offset {
            self.vertical_offset - offset
        } else {
            0
        };
        if self.set_vertical_offset(target) {
            self.set_auto_scroll(false);
        }
    }

    /// Scrolls down by `offset` rows, clamped to the bottom of the
    /// content whatever the requested amount. A scroll down issued while
    /// already exactly at the bottom re-engages tail-following.
    pub fn scroll_down(&mut self, offset: usize)
        requires
            old(self).wf(),
        ensures
            final(self).wf(),
            *final(self) == (ScrollbackWidget {
                vertical_offset: final(self).vertical_offset,
                auto_scroll: final(self).auto_scroll,
                status: final(self).status,
                redraw_requested: final(self).redraw_requested,
                ..*old(self)
            }),
            final(self).vertical_offset as int == if old(self).vertical_offset + offset > old(self).max_scroll_spec() {
                old(self).max_scroll_spec()
            } else {
                old(self).vertical_offset + offset
            },
            final(self).vertical_offset <= final(self).max_scroll_spec(),
            final(self).auto_scroll == (old(self).auto_scroll || (old(self).vertical_offset
                == old(self).max_scroll_spec() && offset > 0)),
    {
        let max = self.max_scroll_position();
        if self.vertical_offset == max && offset > 0 {
            self.set_auto_scroll(true);
        }
        let target = if self.vertical_offset > max {
            max
        } else if offset > max - self.vertical_offset {
            max
        } else {
            self.vertical_offset + offset
        };
        self.set_vertical_offset(target);
    }

    /// Jumps to the top; leaving another position detaches from the
    /// tail. Already at the top, nothing changes.
    pub fn scroll_to_top(&mut self)
        requires
            old(self).wf(),
        ensures
            final(self).wf(),
            *final(self) == (ScrollbackWidget {
                vertical_offset: 0,
                auto_scroll: final(self).auto_scroll,
                status: final(self).status,
                redraw_requested: final(self).redraw_requested,
                ..*old(self)
            }),
            final(self).vertical_offset == 0,
            old(self).vertical_offset != 0 ==> !final(self).auto_scroll && final(self).redraw_requested,
            old(self).vertical_offset == 0 ==> *final(self) == *old(self),
    {
        if self.set_vertical_offset(0) {
            self.set_auto_scroll(false);
        }
    }

    /// Jumps to the bottom; arriving from another position re-engages
    /// tail-following. Already at the bottom, nothing changes.
    pub fn scroll_to_bottom(&mut self)
        requires
            old(self).wf(),
        ensures
            final(self).wf(),
            *final(self) == (ScrollbackWidget {
                vertical_offset: final(self).vertical_offset,
                auto_scroll: final(self).auto_scroll,
                status: final(self).status,
                redraw_requested: final(self).redraw_requested,
                ..*old(self)
            }),
            final(self).vertical_offset as int == old(self).max_scroll_spec(),
            final(self).auto_scroll == (old(self).auto_scroll || old(self).vertical_offset != old(self).max_scroll_spec()),
            old(self).vertical_offset == old(self).max_scroll_spec() ==> *final(self) == *old(self),
    {
        let m = self.max_scroll_position();
        if self.set_vertical_offset(m) {
            self.set_auto_scroll(true);
        }
    }

    /// Scrolls left by `offset` columns, stopping at the first column.
    pub fn scroll_left(&mut self, offset: usize)
        requires
            old(self).wf(),
        ensures
            final(self).wf(),
            *final(self) == (ScrollbackWidget {
                horizontal_offset: final(self).horizontal_offset,
                redraw_requested: true,
                ..*old(self)
            }),
            final(self).horizontal_offset as int == if old(self).horizontal_offset >= offset {
                old(self).horizontal_offset - offset
            } else {
                0int
            },
    {
        self.horizontal_offset = if self.horizontal_offset >= offset {
            self.horizontal_offset - offset
        } else {
            0
        };
        self.request_redraw();
    }

    /// The largest legal horizontal offset: what the widest line leaves
    /// over after the viewport, zero when the content fits.
    pub open spec fn h_scroll_bound_spec(self) -> int {
        if self.max_line_width > self.inner_width {
            self.max_line_width - self.inner_width
        } else {
            0
        }
    }

    /// Scrolls right by `offset` columns, clamped so the viewport never
    /// passes the end of the widest line.
    pub fn scroll_right(&mut self, offset: usize)
        requires
            old(self).wf(),
        ensures
            final(self).wf(),
            *final(self) == (ScrollbackWidget {
                horizontal_offset: final(self).horizontal_offset,
                redraw_requested: true,
                ..*old(self)
            }),
            final(self).horizontal_offset as int == if old(self).horizontal_offset + offset > old(self).h_scroll_bound_spec() {
                old(self).h_scroll_bound_spec()
            } else {
                old(self).horizontal_offset + offset
            },
            final(self).horizontal_offset <= final(self).h_scroll_bound_spec(),
    {
        let bound = if self.max_line_width > self.inner_width {
            self.max_line_width - self.inner_width
        } else {
            0
        };
        self.horizontal_offset = if self.horizontal_offset >= bound {
            bound
        } else if offset > bound - self.horizontal_offset {
            bound
        } else {
            self.horizontal_offset + offset
        };
        self.request_redraw();
    }
}


fn usize_at(v: &Vec<usize>, i: usize) -> (r: usize)
    requires
        i < v@.len(),
    ensures
        r == v@[i as int],
{
    v[i]
}

impl ScrollbackWidget {
    /// Rebuilds the match list by scanning every line of the buffer.
    fn find_all_matches(&mut self)
        requires
            old(self).search_term@.len() > 0,
        ensures
            *final(self) == (ScrollbackWidget {
                search_matches: final(self).search_matches,
                redraw_requested: true,
                ..*old(self)
            }),
            final(self).matches_ok(),
    {
        self.search_matches = Vec::new();
        let n = self.buffer.len();
        let mut l: usize = 0;
        while l < n
            invariant
                l <= n,
                n == self.buffer@.len(),
                self.search_term@.len() > 0,
                *self == (ScrollbackWidget {
                    search_matches: self.search_matches,
                    ..*old(self)
                }),
                forall|k: int|
                    0 <= k && k < self.search_matches@.len() ==> {
                        &&& (#[trigger] self.search_matches@[k]).0 < l
                        &&& is_match_at(
                            self.buffer@[self.search_matches@[k].0 as int]@,
                            self.search_term@,
                            self.search_matches@[k].1 as int,
                        )
                    },
                forall|l2: int, s: int|
                    0 <= l2 && l2 < l && #[trigger] is_match_at(
                        self.buffer@[l2]@,
                        self.search_term@,
                        s,
                    ) ==> self.search_matches@.contains((l2 as usize, s as usize)),
                forall|k1: int, k2: int|
                    0 <= k1 && k1 < k2 && k2 < self.search_matches@.len() ==> (
                    (#[trigger] self.search_matches@[k1]).0 < (
                    #[trigger] self.search_matches@[k2]).0 || (self.search_matches@[k1].0
                        == self.search_matches@[k2].0 && self.search_matches@[k1].1
                        < self.search_matches@[k2].1)),
            decreases n - l,
        {
            let starts = crate::search::line_match_starts(&self.buffer[l], &self.search_term);
            let ghost pre = self.search_matches@;
            proof {
                assert(forall|k: int|
                    0 <= k && k < pre.len() ==> (#[trigger] pre[k]).0 < l);
                assert(forall|k1: int, k2: int|
                    0 <= k1 && k1 < k2 && k2 < pre.len() ==> ((#[trigger] pre[k1]).0 < (
                    #[trigger] pre[k2]).0 || (pre[k1].0 == pre[k2].0 && pre[k1].1 < pre[k2].1)));
            }
            let m = starts.len();
            let mut k: usize = 0;
            while k < m
                invariant
                    k <= m,
                    m == starts@.len(),
                    l < n,
                    n == self.buffer@.len(),
                    *self == (ScrollbackWidget {
                        search_matches: self.search_matches,
                        ..*old(self)
                    }),
                    self.search_matches@.len() == pre.len() + k,
                    forall|i: int| 0 <= i && i < pre.len() ==> self.search_matches@[i] == pre[i],
                    forall|i: int|
                        pre.len() <= i && i < self.search_matches@.len()
                            ==> #[trigger] self.search_matches@[i] == (l, starts@[i - pre.len()]),
                decreases m - k,
            {
                let s = usize_at(&starts, k);
                self.search_matches.push((l, s));
                k = k + 1;
            }
            proof {
                let cur = self.search_matches@;
                let lv = self.buffer@[l as int]@;
                assert forall|k3: int|
                    0 <= k3 && k3 < cur.len() implies {
                    &&& (#[trigger] cur[k3]).0 < l + 1
                    &&& is_match_at(
                        self.buffer@[cur[k3].0 as int]@,
                        self.search_term@,
                        cur[k3].1 as int,
                    )
                } by {
                    if k3 < pre.len() {
                        assert(cur[k3] == pre[k3]);
                    } else {
                        assert(cur[k3] == (l, starts@[k3 - pre.len()]));
                        assert(is_match_at(lv, self.search_term@, starts@[k3 - pre.len()] as int));
                    }
                }
                assert forall|l2: int, s: int|
                    0 <= l2 && l2 < l + 1 && #[trigger] is_match_at(
                        self.buffer@[l2]@,
                        self.search_term@,
                        s,
                    ) implies cur.contains((l2 as usize, s as usize)) by {
                    if l2 < l {
                        assert(pre.contains((l2 as usize, s as usize)));
                        let i = choose|i: int|
                            0 <= i < pre.len() && pre[i] == (l2 as usize, s as usize);
                        assert(cur[i] == (l2 as usize, s as usize));
                    } else {
                        assert(is_match_at(lv, self.search_term@, s));
                        assert(0 <= s);
                        assert(starts@.contains(s as usize));
                        let j = choose|j: int| 0 <= j < starts@.len() && starts@[j] == s as usize;
                        assert(cur[pre.len() + j] == (l as usize, s as usize));
                    }
                }
                assert forall|k1: int, k2: int|
                    0 <= k1 && k1 < k2 && k2 < cur.len() implies ((#[trigger] cur[k1]).0 < (
                #[trigger] cur[k2]).0 || (cur[k1].0 == cur[k2].0 && cur[k1].1 < cur[k2].1)) by {
                    if k2 < pre.len() {
                        assert(cur[k1] == pre[k1] && cur[k2] == pre[k2]);
                        assert((pre[k1]).0 < (pre[k2]).0 || ((pre[k1]).0 == (pre[k2]).0 && (
                        pre[k1]).1 < (pre[k2]).1));
                    } else if k1 < pre.len() {
                        assert(cur[k1] == pre[k1]);
                        assert(cur[k1].0 < l);
                        assert(cur[k2] == (l, starts@[k2 - pre.len()]));
                    } else {
                        assert(cur[k1] == (l, starts@[k1 - pre.len()]));
                        assert(cur[k2] == (l, starts@[k2 - pre.len()]));
                        assert(starts@[k1 - pre.len()] < starts@[k2 - pre.len()]);
                    }
                }
            }
            l = l + 1;
        }
        self.request_redraw();
    }

    /// Refreshes the match list after a content change; with no term set
    /// there is nothing to refresh.
    fn update_search_highlights(&mut self)
        requires
            old(self).search_term@.len() == 0 ==> old(self).search_matches@.len() == 0,
        ensures
            *final(self) == (ScrollbackWidget {
                search_matches: final(self).search_matches,
                redraw_requested: final(self).redraw_requested,
                ..*old(self)
            }),
            final(self).matches_ok(),
            old(self).redraw_requested ==> final(self).redraw_requested,
    {
        if self.search_term.len() > 0 {
            self.find_all_matches();
        }
    }

    /// Raises `max_line_width` to cover a line of width `w`; the
    /// horizontal offset keeps its bound.
    fn update_max_width(&mut self, w: usize)
        requires
            old(self).horizontal_offset <= old(self).max_line_width,
        ensures
            *final(self) == (ScrollbackWidget {
                max_line_width: final(self).max_line_width,
                horizontal_offset: final(self).horizontal_offset,
                redraw_requested: final(self).redraw_requested,
                ..*old(self)
            }),
            final(self).max_line_width == if w > old(self).max_line_width {
                w
            } else {
                old(self).max_line_width
            },
            final(self).horizontal_offset == old(self).horizontal_offset,
            old(self).redraw_requested ==> final(self).redraw_requested,
    {
        if w > self.max_line_width {
            self.max_line_width = w;
            if self.horizontal_offset > self.max_line_width {
                self.horizontal_offset = self.max_line_width;
            }
            self.request_redraw();
        }
    }

    /// After `lines_removed` lines left the front of the buffer: shifts
    /// the selection down by that many lines, clamps its character
    /// indices to the new line lengths, and clears it outright when an
    /// endpoint's line was evicted.
    #[verifier::rlimit(100)]
    fn update_selection_after_buffer_change(&mut self, lines_removed: usize)
        ensures
            *final(self) == (ScrollbackWidget {
                selection: final(self).selection,
                mouse_is_down: final(self).mouse_is_down,
                ..*old(self)
            }),
            !old(self).selection.active || lines_removed == 0 ==> final(self).selection == old(self).selection && final(self).mouse_is_down == old(self).mouse_is_down,
            old(self).selection.active && lines_removed > 0 ==> {
                let sl = old(self).selection.start.line;
                let el = old(self).selection.end.line;
                if sl < lines_removed || el < lines_removed {
                    !final(self).selection.active && !final(self).mouse_is_down
                } else if sl - lines_removed >= old(self).buffer@.len() || el - lines_removed
                    >= old(self).buffer@.len() {
                    !final(self).selection.active && !final(self).mouse_is_down
                } else {
                    &&& final(self).selection.active
                    &&& final(self).mouse_is_down == old(self).mouse_is_down
                    &&& final(self).selection.start.line == sl - lines_removed
                    &&& final(self).selection.end.line == el - lines_removed
                    &&& final(self).selection.start.char_idx as int == if old(self).selection.start.char_idx as int > old(self).buffer@[sl - lines_removed]@.len() {
                        old(self).buffer@[sl - lines_removed]@.len() as int
                    } else {
                        old(self).selection.start.char_idx as int
                    }
                    &&& final(self).selection.end.char_idx as int == if old(self).selection.end.char_idx as int > old(self).buffer@[el - lines_removed]@.len() {
                        old(self).buffer@[el - lines_removed]@.len() as int
                    } else {
                        old(self).selection.end.char_idx as int
                    }
                }
            },
    {
        if !self.selection.is_active() || lines_removed == 0 {
            return ;
        }
        if self.selection.start.line < lines_removed || self.selection.end.line < lines_removed {
            self.selection.clear();
            self.mouse_is_down = false;
            return ;
        }
        let new_start_line = self.selection.start.line - lines_removed;
        let new_end_line = self.selection.end.line - lines_removed;
        let buffer_len = self.buffer.len();
        if new_start_line >= buffer_len || new_end_line >= buffer_len {
            self.selection.clear();
            self.mouse_is_down = false;
            return ;
        }
        self.selection.start.line = new_start_line;
        self.selection.end.line = new_end_line;
        let start_len = self.buffer[new_start_line].len();
        if self.selection.start.char_idx > start_len {
            self.selection.start.char_idx = start_len;
        }
        let end_len = self.buffer[new_end_line].len();
        if self.selection.end.char_idx > end_len {
            self.selection.end.char_idx = end_len;
        }
    }
}


impl ScrollbackWidget {
    /// Appends one styled line. At capacity the oldest line is evicted
    /// first, so the buffer always holds the most recent lines, in
    /// order; the selection shifts or clears with the eviction, the
    /// match list is refreshed, and while tail-following the viewport
    /// moves to the bottom.
    pub fn add_styled_line(&mut self, line: StyledText)
        requires
            old(self).wf(),
        ensures
            final(self).wf(),
            ({
                let drop: int = if old(self).buffer@.len() >= old(self).line_capacity && old(self).buffer@.len() > 0 {
                    1
                } else {
                    0
                };
                &&& final(self).buffer@.len() == old(self).buffer@.len() - drop + 1
                &&& forall|i: int|
                    0 <= i && i < final(self).buffer@.len() - 1 ==> (#[trigger] final(self).buffer@[i])@ == old(self).buffer@[i + drop]@
                &&& final(self).buffer@[final(self).buffer@.len() - 1]@ == line.chars@
            }),
            final(self).max_line_width == if line.chars@.len() > old(self).max_line_width {
                line.chars@.len() as usize
            } else {
                old(self).max_line_width
            },
            final(self).line_capacity == old(self).line_capacity,
            final(self).wrap_lines == old(self).wrap_lines,
            final(self).wrap_indent == old(self).wrap_indent,
            final(self).inner_height == old(self).inner_height,
            final(self).inner_width == old(self).inner_width,
            final(self).auto_scroll == old(self).auto_scroll,
            final(self).search_term@ == old(self).search_term@,
            final(self).search_mode == old(self).search_mode,
            final(self).wrapped_lines@ == old(self).wrapped_lines@,
            final(self).title == old(self).title,
            old(self).auto_scroll ==> final(self).vertical_offset as int == final(self).max_scroll_spec(),
            !old(self).auto_scroll ==> final(self).vertical_offset == old(self).vertical_offset,
            ({
                let drop: int = if old(self).buffer@.len() >= old(self).line_capacity && old(self).buffer@.len() > 0 {
                    1
                } else {
                    0
                };
                &&& (!old(self).selection.active ==> final(self).selection == old(self).selection)
                &&& (old(self).selection.active && drop == 0 ==> final(self).selection == old(self).selection)
                &&& (old(self).selection.active && drop == 1 && (old(self).selection.start.line
                    == 0 || old(self).selection.end.line == 0) ==> !final(self).selection.active)
                &&& (old(self).selection.active && drop == 1 && old(self).selection.start.line > 0
                    && old(self).selection.end.line > 0 ==> {
                    &&& final(self).selection.active
                    &&& final(self).selection.start.line == old(self).selection.start.line - 1
                    &&& final(self).selection.end.line == old(self).selection.end.line - 1
                    &&& final(self).selection.start.char_idx == old(self).selection.start.char_idx
                    &&& final(self).selection.end.char_idx == old(self).selection.end.char_idx
                })
            }),
            final(self).redraw_requested,
    {
        let lines_removed: usize = if self.buffer.len() >= self.line_capacity && self.buffer.len()
            > 0 {
            1
        } else {
            0
        };
        if lines_removed == 1 {
            let _ = self.buffer.pop_front();
            let _ = self.lengths.pop_front();
        }
        let w = line.len();
        self.update_max_width(w);
        self.lengths.push_back(w);
        self.buffer.push_back(line.chars);
        self.update_selection_after_buffer_change(lines_removed);
        self.update_search_highlights();
        self.request_redraw();
        self.check_and_auto_scroll();
        self.recalculate_status();
    }

    /// Removes all content and resets scrolling, search and selection.
    pub fn clear(&mut self)
        requires
            old(self).wf(),
        ensures
            final(self).wf(),
            final(self).buffer@.len() == 0,
            final(self).max_line_width == 0,
            final(self).vertical_offset == 0,
            final(self).horizontal_offset == 0,
            final(self).auto_scroll,
            final(self).search_term@.len() == 0,
            final(self).search_matches@.len() == 0,
            final(self).current_match == 0,
            !final(self).selection.active,
            !final(self).mouse_is_down,
            final(self).wrapped_lines@.len() == 0,
            final(self).redraw_requested,
            final(self).line_capacity == old(self).line_capacity,
            final(self).wrap_lines == old(self).wrap_lines,
            final(self).wrap_indent == old(self).wrap_indent,
    {
        self.buffer.clear();
        self.lengths.clear();
        self.wrapped_lines = Vec::new();
        self.wrapped_lines_width = 0;
        self.max_line_width = 0;
        self.vertical_offset = 0;
        self.horizontal_offset = 0;
        self.set_auto_scroll(true);
        self.search_term = Vec::new();
        self.search_matches = Vec::new();
        self.current_match = 0;
        self.selection.clear();
        self.mouse_is_down = false;
        self.request_redraw();
    }

    /// Builder: sets the title.
    pub fn title(self, title: String) -> (r: Self)
        ensures
            r == (ScrollbackWidget { title, redraw_requested: true, ..self }),
    {
        let mut w = self;
        w.title = title;
        w.request_redraw();
        w
    }

    /// Builder: sets the base content style.
    pub fn style(self, style: Style) -> (r: Self)
        ensures
            r == (ScrollbackWidget { style, ..self }),
    {
        let mut w = self;
        w.style = style;
        w
    }

    /// Builder: sets the indent of wrapped continuation rows.
    pub fn wrap_indent(self, wrap_indent: usize) -> (r: Self)
        ensures
            r == (ScrollbackWidget { wrap_indent, ..self }),
    {
        let mut w = self;
        w.wrap_indent = wrap_indent;
        w
    }

    /// Adjusts the indent of wrapped continuation rows; a change forces
    /// the wrap table to be rebuilt at the next frame.
    pub fn set_wrap_indent(&mut self, wrap_indent: usize)
        requires
            old(self).wf(),
        ensures
            final(self).wf(),
            final(self).wrap_indent == wrap_indent,
            old(self).wrap_indent != wrap_indent ==> *final(self) == (ScrollbackWidget {
                wrap_indent,
                wrapped_lines_width: 0,
                redraw_requested: true,
                ..*old(self)
            }),
            old(self).wrap_indent == wrap_indent ==> *final(self) == *old(self),
    {
        if self.wrap_indent != wrap_indent {
            self.wrap_indent = wrap_indent;
            self.wrapped_lines_width = 0;
            self.request_redraw();
        }
    }

    /// Toggles line wrapping; the vertical offset is clamped to the new
    /// mode's bottom and the wrap table is rebuilt at the next frame.
    pub fn set_wrap_lines(&mut self, wrap_lines: bool)
        requires
            old(self).wf(),
        ensures
            final(self).wf(),
            final(self).wrap_lines == wrap_lines,
            old(self).wrap_lines == wrap_lines ==> *final(self) == *old(self),
            old(self).wrap_lines != wrap_lines ==> final(self).vertical_offset
                <= (ScrollbackWidget { wrap_lines, ..*old(self) }).max_scroll_spec(),
    {
        if self.wrap_lines != wrap_lines {
            self.wrap_lines = wrap_lines;
            let m = self.max_scroll_position();
            let target = if self.vertical_offset < m {
                self.vertical_offset
            } else {
                m
            };
            self.set_vertical_offset(target);
            self.wrapped_lines_width = 0;
            self.request_redraw();
            self.recalculate_status();
        }
    }

    /// Sets the title, marking the widget dirty only on change.
    pub fn set_title(&mut self, title: String)
        requires
            old(self).wf(),
        ensures
            final(self).wf(),
            final(self).title == title,
            old(self).title@ == title@ ==> *final(self) == (ScrollbackWidget {
                title,
                ..*old(self)
            }),
            old(self).title@ != title@ ==> *final(self) == (ScrollbackWidget {
                title,
                redraw_requested: true,
                ..*old(self)
            }),
    {
        if !self.title.eq(&title) {
            self.title = title;
            self.request_redraw();
        } else {
            self.title = title;
        }
    }
}


/// The contents of a batch of styled lines.
pub open spec fn text_views(ts: Seq<StyledText>) -> Seq<Seq<StyledChar>> {
    ts.map_values(|t: StyledText| t.chars@)
}

impl ScrollbackWidget {
    /// Those pieces of well-formedness that the buffer-filling helpers
    /// below maintain: cache sync, width bounds and the horizontal
    /// offset's bound.
    pub open spec fn buffer_wf(self) -> bool {
        &&& self.lengths@.len() == self.buffer@.len()
        &&& forall|i: int|
            0 <= i && i < self.buffer@.len() ==> (#[trigger] self.lengths@[i])
                == self.buffer@[i]@.len()
        &&& forall|i: int|
            0 <= i && i < self.buffer@.len() ==> (#[trigger] self.buffer@[i]@.len())
                <= self.max_line_width
        &&& self.horizontal_offset <= self.max_line_width
    }

    /// Replaces the whole buffer with the trailing `capacity` lines of a
    /// batch at least as large as the capacity.
    fn replace_with_batch_tail(&mut self, items: &Vec<StyledText>)
        requires
            old(self).wf(),
            items@.len() >= old(self).line_capacity,
            items@.len() > 0,
        ensures
            *final(self) == (ScrollbackWidget {
                buffer: final(self).buffer,
                lengths: final(self).lengths,
                max_line_width: final(self).max_line_width,
                redraw_requested: final(self).redraw_requested,
                ..*old(self)
            }),
            final(self).buffer_wf(),
            final(self).buffer@.len() == old(self).line_capacity,
            forall|k: int|
                0 <= k && k < final(self).buffer@.len() ==> (#[trigger] final(self).buffer@[k])@
                    == items@[k + items@.len() - old(self).line_capacity].chars@,
            old(self).max_line_width <= final(self).max_line_width,
            old(self).redraw_requested ==> final(self).redraw_requested,
    {
        self.buffer.clear();
        self.lengths.clear();
        let start_index = items.len() - self.line_capacity;
        let mut i = start_index;
        while i < items.len()
            invariant
                start_index <= i <= items@.len(),
                start_index == items@.len() - self.line_capacity,
                self.buffer@.len() == i - start_index,
                self.lengths@.len() == self.buffer@.len(),
                forall|k: int|
                    0 <= k && k < self.buffer@.len() ==> (#[trigger] self.buffer@[k])@
                        == items@[k + start_index].chars@,
                forall|k: int|
                    0 <= k && k < self.buffer@.len() ==> (#[trigger] self.lengths@[k])
                        == self.buffer@[k]@.len(),
                forall|k: int|
                    0 <= k && k < self.buffer@.len() ==> (#[trigger] self.buffer@[k])@.len()
                        <= self.max_line_width,
                self.horizontal_offset <= self.max_line_width,
                *self == (ScrollbackWidget {
                    buffer: self.buffer,
                    lengths: self.lengths,
                    max_line_width: self.max_line_width,
                    redraw_requested: self.redraw_requested,
                    ..*old(self)
                }),
                old(self).max_line_width <= self.max_line_width,
                old(self).redraw_requested ==> self.redraw_requested,
            decreases items@.len() - i,
        {
            let cells = clone_cells(&items[i].chars);
            let w = cells.len();
            self.update_max_width(w);
            self.lengths.push_back(w);
            self.buffer.push_back(cells);
            i = i + 1;
        }
    }

    /// Evicts `lines_removed` old lines from the front and appends the
    /// whole batch; for a batch smaller than the capacity.
    fn append_batch_evicting(&mut self, items: &Vec<StyledText>, lines_removed: usize)
        requires
            old(self).wf(),
            lines_removed <= old(self).buffer@.len(),
        ensures
            *final(self) == (ScrollbackWidget {
                buffer: final(self).buffer,
                lengths: final(self).lengths,
                max_line_width: final(self).max_line_width,
                redraw_requested: final(self).redraw_requested,
                ..*old(self)
            }),
            final(self).buffer_wf(),
            final(self).buffer@.len() == old(self).buffer@.len() - lines_removed + items@.len(),
            forall|k: int|
                0 <= k && k < final(self).buffer@.len() ==> (#[trigger] final(self).buffer@[k])@
                    == if k + lines_removed < old(self).buffer@.len() {
                    old(self).buffer@[k + lines_removed]@
                } else {
                    items@[k + lines_removed - old(self).buffer@.len()].chars@
                },
            old(self).max_line_width <= final(self).max_line_width,
            old(self).redraw_requested ==> final(self).redraw_requested,
    {
        let mut r: usize = 0;
        while r < lines_removed
            invariant
                r <= lines_removed,
                lines_removed <= old(self).buffer@.len(),
                self.buffer@.len() == old(self).buffer@.len() - r,
                self.lengths@.len() == self.buffer@.len(),
                forall|k: int|
                    0 <= k && k < self.buffer@.len() ==> (#[trigger] self.buffer@[k]) == old(self).buffer@[k + r],
                forall|k: int|
                    0 <= k && k < self.lengths@.len() ==> (#[trigger] self.lengths@[k]) == old(self).lengths@[k + r],
                *self == (ScrollbackWidget {
                    buffer: self.buffer,
                    lengths: self.lengths,
                    ..*old(self)
                }),
            decreases lines_removed - r,
        {
            let _ = self.buffer.pop_front();
            let _ = self.lengths.pop_front();
            r = r + 1;
        }
        proof {
            assert forall|k: int|
                0 <= k && k < self.buffer@.len() implies (#[trigger] self.buffer@[k])@.len()
                <= self.max_line_width by {
                assert(self.buffer@[k] == old(self).buffer@[k + lines_removed]);
            }
            assert forall|k: int|
                0 <= k && k < self.lengths@.len() implies (#[trigger] self.lengths@[k])
                == self.buffer@[k]@.len() by {
                assert(self.lengths@[k] == old(self).lengths@[k + lines_removed]);
                assert(self.buffer@[k] == old(self).buffer@[k + lines_removed]);
            }
        }
        let ghost mid_buffer = self.buffer@;
        let mut i: usize = 0;
        while i < items.len()
            invariant
                i <= items@.len(),
                self.buffer@.len() == mid_buffer.len() + i,
                self.lengths@.len() == self.buffer@.len(),
                forall|k: int|
                    0 <= k && k < mid_buffer.len() ==> (#[trigger] self.buffer@[k])
                        == mid_buffer[k],
                forall|k: int|
                    mid_buffer.len() <= k && k < self.buffer@.len() ==> (
                    #[trigger] self.buffer@[k])@ == items@[k - mid_buffer.len()].chars@,
                forall|k: int|
                    0 <= k && k < self.buffer@.len() ==> (#[trigger] self.lengths@[k])
                        == self.buffer@[k]@.len(),
                forall|k: int|
                    0 <= k && k < self.buffer@.len() ==> (#[trigger] self.buffer@[k])@.len()
                        <= self.max_line_width,
                self.horizontal_offset <= self.max_line_width,
                *self == (ScrollbackWidget {
                    buffer: self.buffer,
                    lengths: self.lengths,
                    max_line_width: self.max_line_width,
                    redraw_requested: self.redraw_requested,
                    ..*old(self)
                }),
                old(self).max_line_width <= self.max_line_width,
                old(self).redraw_requested ==> self.redraw_requested,
                mid_buffer.len() == old(self).buffer@.len() - lines_removed,
                forall|k: int|
                    0 <= k && k < mid_buffer.len() ==> (#[trigger] mid_buffer[k]) == old(self).buffer@[k + lines_removed],
            decreases items@.len() - i,
        {
            let cells = clone_cells(&items[i].chars);
            let w = cells.len();
            self.update_max_width(w);
            self.lengths.push_back(w);
            self.buffer.push_back(cells);
            i = i + 1;
        }
    }

    /// Appends a batch of styled lines. The buffer ends up holding the
    /// most recent `capacity` lines of the old content followed by the
    /// batch; a batch at least as large as the capacity replaces the
    /// whole buffer in one step rather than evicting line by line.
    #[verifier::rlimit(60)]
    pub fn add_styled_lines(&mut self, items: Vec<StyledText>)
        requires
            old(self).wf(),
        ensures
            final(self).wf(),
            items@.len() == 0 ==> *final(self) == *old(self),
            items@.len() > 0 ==> ({
                let total: int = old(self).buffer@.len() + items@.len() as int;
                let drop: int = if total > old(self).line_capacity {
                    total - old(self).line_capacity
                } else {
                    0
                };
                &&& final(self).buffer@.len() == total - drop
                &&& forall|i: int|
                    0 <= i && i < final(self).buffer@.len() ==> (#[trigger] final(self).buffer@[i])@ == if i + drop < old(self).buffer@.len() {
                        old(self).buffer@[i + drop]@
                    } else {
                        items@[i + drop - old(self).buffer@.len()].chars@
                    }
            }),
            items@.len() > 0 ==> {
                &&& final(self).line_capacity == old(self).line_capacity
                &&& final(self).wrap_lines == old(self).wrap_lines
                &&& final(self).wrap_indent == old(self).wrap_indent
                &&& final(self).auto_scroll == old(self).auto_scroll
                &&& final(self).search_term@ == old(self).search_term@
                &&& final(self).wrapped_lines@ == old(self).wrapped_lines@
                &&& (old(self).auto_scroll ==> final(self).vertical_offset as int == final(self).max_scroll_spec())
                &&& (!old(self).auto_scroll ==> final(self).vertical_offset == old(self).vertical_offset)
                &&& final(self).redraw_requested
            },
    {
        if items.len() == 0 {
            return ;
        }
        let lines_removed: usize;
        if items.len() >= self.line_capacity {
            lines_removed = self.buffer.len();
            self.replace_with_batch_tail(&items);
        } else {
            let headroom = self.line_capacity - items.len();
            lines_removed = if self.buffer.len() > headroom {
                self.buffer.len() - headroom
            } else {
                0
            };
            self.append_batch_evicting(&items, lines_removed);
        }
        self.update_selection_after_buffer_change(lines_removed);
        self.update_search_highlights();
        self.request_redraw();
        self.check_and_auto_scroll();
        self.recalculate_status();
    }
}


/// A built wrap table's entries, as mathematical integers.
pub open spec fn triple_view(t: Seq<(usize, usize, usize)>) -> Seq<(int, int, int)> {
    t.map_values(|e: (usize, usize, usize)| (e.0 as int, e.1 as int, e.2 as int))
}

/// A line's segments tagged with the index of the line they came from.
pub open spec fn tagged(o: int, segs: Seq<(int, int)>) -> Seq<(int, int, int)> {
    segs.map_values(|p: (int, int)| (o, p.0, p.1))
}

/// The wrap table of a whole buffer: every line's segments in line
/// order, each tagged with its line index.
pub open spec fn table_spec(lines: Seq<Seq<StyledChar>>, fw: int, rw: int) -> Seq<(int, int, int)>
    decreases lines.len(),
{
    if lines.len() == 0 {
        Seq::empty()
    } else {
        table_spec(lines.drop_last(), fw, rw) + tagged(
            lines.len() - 1,
            crate::wrap::line_segments(lines.last(), fw, rw),
        )
    }
}

/// How many rows of the table belong to lines before line `l`.
pub open spec fn rows_before(t: Seq<(usize, usize, usize)>, l: int) -> int
    decreases t.len(),
{
    if t.len() == 0 {
        0
    } else {
        rows_before(t.drop_last(), l) + if (t.last().0 as int) < l {
            1int
        } else {
            0int
        }
    }
}

impl ScrollbackWidget {
    /// The gutter width for line numbers over `total_lines` lines: the
    /// number of digits, at least two and at most four columns.
    pub open spec fn ln_width_spec(self, total_lines: int) -> int {
        if !self.show_line_numbers {
            0
        } else if total_lines < 100 {
            2
        } else if total_lines < 1000 {
            3
        } else {
            4
        }
    }

    pub fn calculate_line_num_width(&self, total_lines: usize) -> (r: usize)
        ensures
            r == self.ln_width_spec(total_lines as int),
    {
        if !self.show_line_numbers {
            0
        } else if total_lines < 100 {
            2
        } else if total_lines < 1000 {
            3
        } else {
            4
        }
    }

    /// The width left for content in wrap mode, after the gutter.
    pub open spec fn wrap_content_width_spec(self) -> int {
        let ln = self.ln_width_spec(self.buffer@.len() as int);
        let used: int = if ln > 0 {
            ln + 1
        } else {
            0
        };
        if self.inner_width >= used {
            self.inner_width - used
        } else {
            0
        }
    }

    pub fn wrap_content_width(&self) -> (r: usize)
        ensures
            r == self.wrap_content_width_spec(),
    {
        let ln = self.calculate_line_num_width(self.buffer.len());
        let used = if ln > 0 {
            ln + 1
        } else {
            0
        };
        if self.inner_width >= used {
            self.inner_width - used
        } else {
            0
        }
    }

    /// The continuation width under the current indent.
    pub open spec fn rest_width_spec(self, content_w: int) -> int {
        if content_w >= self.wrap_indent {
            content_w - self.wrap_indent
        } else {
            0
        }
    }

    /// The wrap table matches the buffer under the recorded width.
    pub open spec fn wrap_fresh(self) -> bool {
        self.wrap_lines ==> {
            let cw = self.wrap_content_width_spec();
            triple_view(self.wrapped_lines@) == table_spec(
                self.lines(),
                cw,
                self.rest_width_spec(cw),
            ) && self.wrapped_lines_width == cw
        }
    }

    /// Rebuilds the wrap table for the current content and geometry.
    fn rebuild_wrap_table(&mut self)
        requires
            old(self).wf(),
        ensures
            final(self).wf(),
            *final(self) == (ScrollbackWidget {
                wrapped_lines: final(self).wrapped_lines,
                wrapped_lines_width: final(self).wrapped_lines_width,
                ..*old(self)
            }),
            ({
                let cw = old(self).wrap_content_width_spec();
                &&& final(self).wrapped_lines_width == cw
                &&& triple_view(final(self).wrapped_lines@) == table_spec(
                    old(self).lines(),
                    cw,
                    old(self).rest_width_spec(cw),
                )
            }),
    {
        let cw = self.wrap_content_width();
        let rw = if cw >= self.wrap_indent {
            cw - self.wrap_indent
        } else {
            0
        };
        let mut table: Vec<(usize, usize, usize)> = Vec::new();
        let n = self.buffer.len();
        let mut l: usize = 0;
        proof {
            assert(self.lines().take(0) =~= Seq::<Seq<StyledChar>>::empty());
            assert(triple_view(table@) =~= table_spec(self.lines().take(0), cw as int, rw as int));
        }
        while l < n
            invariant
                l <= n,
                n == self.buffer@.len(),
                cw == self.wrap_content_width_spec(),
                rw == self.rest_width_spec(cw as int),
                *self == *old(self),
                triple_view(table@) == table_spec(self.lines().take(l as int), cw as int, rw as int),
            decreases n - l,
        {
            let segs = crate::wrap::wrap_line(&self.buffer[l], cw, rw);
            let ghost pre_table = table@;
            let m = segs.len();
            let mut k: usize = 0;
            while k < m
                invariant
                    k <= m,
                    m == segs@.len(),
                    l < n,
                    n == self.buffer@.len(),
                    *self == *old(self),
                    table@.len() == pre_table.len() + k,
                    forall|i: int| 0 <= i && i < pre_table.len() ==> table@[i] == pre_table[i],
                    forall|i: int|
                        pre_table.len() <= i && i < table@.len() ==> #[trigger] table@[i] == (
                        l,
                        segs@[i - pre_table.len()].0,
                        segs@[i - pre_table.len()].1,
                        ),
                decreases m - k,
            {
                let sg = segs[k];
                table.push((l, sg.0, sg.1));
                k = k + 1;
            }
            proof {
                let lv = self.lines();
                assert(lv.take(l + 1).drop_last() =~= lv.take(l as int));
                assert(lv.take(l + 1).last() == lv[l as int]);
                assert(lv[l as int] == self.buffer@[l as int]@);
                assert(table_spec(lv.take(l + 1), cw as int, rw as int) == table_spec(
                    lv.take(l as int),
                    cw as int,
                    rw as int,
                ) + tagged(l as int, crate::wrap::line_segments(lv[l as int], cw as int, rw as int)));
                let tg = tagged(
                    l as int,
                    crate::wrap::line_segments(lv[l as int], cw as int, rw as int),
                );
                assert(crate::wrap::pairs_view(segs@) == crate::wrap::line_segments(
                    lv[l as int],
                    cw as int,
                    rw as int,
                ));
                assert forall|i: int| 0 <= i && i < tg.len() implies tg[i] == (
                l as int,
                segs@[i].0 as int,
                segs@[i].1 as int,
                ) by {
                    assert(crate::wrap::pairs_view(segs@)[i] == (segs@[i].0 as int, segs@[i].1 as int));
                }
                assert(triple_view(table@) =~= table_spec(lv.take(l + 1), cw as int, rw as int));
            }
            l = l + 1;
        }
        proof {
            assert(self.lines().take(n as int) =~= self.lines());
        }
        self.wrapped_lines = table;
        self.wrapped_lines_width = cw;
    }

    /// Rebuilds the wrap table for the current content and geometry,
    /// once per frame. A rebuild is one pass over the characters and a
    /// frame repaints everything anyway, so nothing finer-grained is
    /// kept; the recorded width still lets callers see what the table
    /// was built for.
    fn ensure_wrap_table(&mut self)
        requires
            old(self).wf(),
        ensures
            final(self).wf(),
            *final(self) == (ScrollbackWidget {
                wrapped_lines: final(self).wrapped_lines,
                wrapped_lines_width: final(self).wrapped_lines_width,
                ..*old(self)
            }),
            final(self).wrap_fresh(),
            !old(self).wrap_lines ==> *final(self) == *old(self),
    {
        if self.wrap_lines {
            self.rebuild_wrap_table();
        }
    }
}


impl ScrollbackWidget {
    /// Opens the search box and gives it input focus.
    pub fn open_search(&mut self)
        requires
            old(self).wf(),
        ensures
            final(self).wf(),
            *final(self) == (ScrollbackWidget {
                search_mode: SearchMode::Input,
                status: final(self).status,
                redraw_requested: true,
                ..*old(self)
            }),
    {
        self.focus_search();
        self.request_redraw();
    }

    /// Puts input focus on the search box.
    pub fn focus_search(&mut self)
        requires
            old(self).wf(),
        ensures
            final(self).wf(),
            *final(self) == (ScrollbackWidget {
                search_mode: SearchMode::Input,
                status: final(self).status,
                redraw_requested: true,
                ..*old(self)
            }),
    {
        self.search_mode = SearchMode::Input;
        self.recalculate_status();
        self.request_redraw();
    }

    /// Keeps the search results visible but hands focus back to the
    /// scrollback.
    pub fn unfocus_search(&mut self)
        requires
            old(self).wf(),
        ensures
            final(self).wf(),
            *final(self) == (ScrollbackWidget {
                search_mode: SearchMode::Open,
                status: final(self).status,
                redraw_requested: true,
                ..*old(self)
            }),
    {
        self.search_mode = SearchMode::Open;
        self.recalculate_status();
        self.request_redraw();
    }

    /// Closes the search box; the term and its matches are kept.
    pub fn close_search(&mut self)
        requires
            old(self).wf(),
        ensures
            final(self).wf(),
            *final(self) == (ScrollbackWidget {
                search_mode: SearchMode::Closed,
                status: final(self).status,
                redraw_requested: true,
                ..*old(self)
            }),
    {
        self.search_mode = SearchMode::Closed;
        self.recalculate_status();
        self.request_redraw();
    }

    /// Drops the term and its matches and closes the search box.
    pub fn clear_search(&mut self)
        requires
            old(self).wf(),
        ensures
            final(self).wf(),
            *final(self) == (ScrollbackWidget {
                search_term: final(self).search_term,
                search_matches: final(self).search_matches,
                current_match: 0,
                search_mode: SearchMode::Closed,
                status: final(self).status,
                redraw_requested: true,
                ..*old(self)
            }),
            final(self).search_term@.len() == 0,
            final(self).search_matches@.len() == 0,
    {
        self.search_term = Vec::new();
        self.search_matches = Vec::new();
        self.current_match = 0;
        self.close_search();
    }

    /// Sets the search term and rebuilds the match list: every
    /// case-insensitive occurrence over the whole buffer, line-major and
    /// left to right. A first match scrolls into view.
    #[verifier::rlimit(100)]
    pub fn set_search_term(&mut self, term: &str)
        requires
            old(self).wf(),
        ensures
            final(self).wf(),
            final(self).search_term@ == term@,
            final(self).buffer@ == old(self).buffer@,
            final(self).redraw_requested,
            term@.len() == 0 ==> *final(self) == (ScrollbackWidget {
                search_term: final(self).search_term,
                search_matches: final(self).search_matches,
                current_match: 0,
                redraw_requested: true,
                ..*old(self)
            }) && final(self).search_matches@.len() == 0,
            term@.len() > 0 && final(self).search_matches@.len() == 0 ==> *final(self) == (
            ScrollbackWidget {
                search_term: final(self).search_term,
                search_matches: final(self).search_matches,
                redraw_requested: true,
                ..*old(self)
            }),
            term@.len() > 0 && final(self).search_matches@.len() > 0 ==> {
                &&& *final(self) == (ScrollbackWidget {
                    search_term: final(self).search_term,
                    search_matches: final(self).search_matches,
                    current_match: 0,
                    vertical_offset: final(self).vertical_offset,
                    auto_scroll: false,
                    wrapped_lines: final(self).wrapped_lines,
                    wrapped_lines_width: final(self).wrapped_lines_width,
                    status: final(self).status,
                    redraw_requested: true,
                    ..*old(self)
                })
                &&& final(self).current_match == 0
                &&& !final(self).auto_scroll
                &&& (!old(self).wrap_lines ==> final(self).vertical_offset as int == {
                    let row = final(self).search_matches@[0].0 as int;
                    if row <= final(self).max_scroll_spec() {
                        row
                    } else {
                        final(self).max_scroll_spec()
                    }
                })
                &&& (old(self).wrap_lines ==> final(self).vertical_offset as int == {
                    let row = rows_before(
                        final(self).wrapped_lines@,
                        final(self).search_matches@[0].0 as int,
                    );
                    if row <= final(self).max_scroll_spec() {
                        row
                    } else {
                        final(self).max_scroll_spec()
                    }
                })
            },
    {
        let cs = crate::text::str_to_chars(term);
        self.search_term = cs;
        if self.search_term.len() == 0 {
            self.search_matches = Vec::new();
            self.current_match = 0;
        } else {
            self.find_all_matches();
            if self.search_matches.len() > 0 {
                self.current_match = 0;
                self.jump_to_current_match();
            }
        }
        self.request_redraw();
    }

    /// Scrolls so the current match's line becomes the top row, clamped
    /// to the bottom of the content: directly to the line in clip mode,
    /// through the wrap table in wrap mode by summing the wrapped row
    /// counts of all preceding lines. Navigating to a match detaches
    /// from the tail.
    pub fn jump_to_current_match(&mut self)
        requires
            old(self).wf(),
        ensures
            final(self).wf(),
            old(self).search_matches@.len() == 0 || old(self).current_match >= old(self).search_matches@.len() ==> *final(self) == *old(self),
            old(self).current_match < old(self).search_matches@.len() ==> {
                &&& *final(self) == (ScrollbackWidget {
                    vertical_offset: final(self).vertical_offset,
                    auto_scroll: false,
                    wrapped_lines: final(self).wrapped_lines,
                    wrapped_lines_width: final(self).wrapped_lines_width,
                    status: final(self).status,
                    redraw_requested: true,
                    ..*old(self)
                })
                &&& !final(self).auto_scroll
                &&& final(self).redraw_requested
                &&& final(self).vertical_offset <= final(self).max_scroll_spec()
                &&& (!old(self).wrap_lines ==> final(self).vertical_offset as int == {
                    let row = old(self).search_matches@[old(self).current_match as int].0 as int;
                    if row <= final(self).max_scroll_spec() {
                        row
                    } else {
                        final(self).max_scroll_spec()
                    }
                })
                &&& (old(self).wrap_lines ==> final(self).vertical_offset as int == {
                    let row = rows_before(
                        final(self).wrapped_lines@,
                        old(self).search_matches@[old(self).current_match as int].0 as int,
                    );
                    if row <= final(self).max_scroll_spec() {
                        row
                    } else {
                        final(self).max_scroll_spec()
                    }
                })
            },
    {
        if self.search_matches.len() == 0 || self.current_match >= self.search_matches.len() {
            return ;
        }
        let target_line = self.search_matches[self.current_match].0;
        let raw = if self.wrap_lines {
            self.ensure_wrap_table();
            self.count_rows_before(target_line)
        } else {
            target_line
        };
        let m = self.max_scroll_position();
        let target = if raw <= m {
            raw
        } else {
            m
        };
        self.set_vertical_offset(target);
        self.set_auto_scroll(false);
        self.request_redraw();
    }

    /// Counts the wrap-table rows that belong to lines before `line`.
    fn count_rows_before(&self, line: usize) -> (r: usize)
        ensures
            r as int == rows_before(self.wrapped_lines@, line as int),
    {
        let n = self.wrapped_lines.len();
        let mut r: usize = 0;
        let mut k: usize = 0;
        while k < n
            invariant
                k <= n,
                n == self.wrapped_lines@.len(),
                r <= k,
                r as int == rows_before(self.wrapped_lines@.take(k as int), line as int),
            decreases n - k,
        {
            proof {
                assert(self.wrapped_lines@.take(k + 1).drop_last() =~= self.wrapped_lines@.take(
                    k as int,
                ));
                assert(self.wrapped_lines@.take(k + 1).last() == self.wrapped_lines@[k as int]);
            }
            let e = self.wrapped_lines[k];
            if e.0 < line {
                r = r + 1;
            }
            k = k + 1;
        }
        proof {
            assert(self.wrapped_lines@.take(n as int) =~= self.wrapped_lines@);
        }
        r
    }

    /// Advances to the next match, wrapping round at the end, and
    /// scrolls to it, detaching from the tail.
    pub fn jump_to_next_match(&mut self)
        requires
            old(self).wf(),
        ensures
            final(self).wf(),
            old(self).search_matches@.len() == 0 ==> *final(self) == *old(self),
            old(self).search_matches@.len() > 0 ==> final(self).current_match as int == ((old(self).current_match as int % old(self).search_matches@.len() as int) + 1) % (old(self).search_matches@.len() as int),
            old(self).search_matches@.len() > 0 ==> {
                &&& !final(self).auto_scroll
                &&& final(self).redraw_requested
                &&& final(self).vertical_offset <= final(self).max_scroll_spec()
                &&& (!old(self).wrap_lines ==> final(self).vertical_offset as int == {
                    let row = old(self).search_matches@[final(self).current_match as int].0 as int;
                    if row <= final(self).max_scroll_spec() {
                        row
                    } else {
                        final(self).max_scroll_spec()
                    }
                })
                &&& (old(self).wrap_lines ==> final(self).vertical_offset as int == {
                    let row = rows_before(
                        final(self).wrapped_lines@,
                        old(self).search_matches@[final(self).current_match as int].0 as int,
                    );
                    if row <= final(self).max_scroll_spec() {
                        row
                    } else {
                        final(self).max_scroll_spec()
                    }
                })
            },
    {
        if self.search_matches.len() == 0 {
            return ;
        }
        let n = self.search_matches.len();
        self.current_match = ((self.current_match % n) + 1) % n;
        self.jump_to_current_match();
    }

    /// Steps back to the previous match, wrapping round at the start,
    /// and scrolls to it, detaching from the tail.
    pub fn jump_to_prev_match(&mut self)
        requires
            old(self).wf(),
        ensures
            final(self).wf(),
            old(self).search_matches@.len() == 0 ==> *final(self) == *old(self),
            old(self).search_matches@.len() > 0 ==> final(self).current_match as int == if old(self).current_match == 0 {
                old(self).search_matches@.len() - 1
            } else {
                old(self).current_match - 1
            },
            old(self).search_matches@.len() > 0 && final(self).current_match < old(self).search_matches@.len() ==> {
                &&& !final(self).auto_scroll
                &&& final(self).redraw_requested
                &&& final(self).vertical_offset <= final(self).max_scroll_spec()
                &&& (!old(self).wrap_lines ==> final(self).vertical_offset as int == {
                    let row = old(self).search_matches@[final(self).current_match as int].0 as int;
                    if row <= final(self).max_scroll_spec() {
                        row
                    } else {
                        final(self).max_scroll_spec()
                    }
                })
                &&& (old(self).wrap_lines ==> final(self).vertical_offset as int == {
                    let row = rows_before(
                        final(self).wrapped_lines@,
                        old(self).search_matches@[final(self).current_match as int].0 as int,
                    );
                    if row <= final(self).max_scroll_spec() {
                        row
                    } else {
                        final(self).max_scroll_spec()
                    }
                })
            },
    {
        if self.search_matches.len() == 0 {
            return ;
        }
        if self.current_match == 0 {
            self.current_match = self.search_matches.len() - 1;
        } else {
            self.current_match = self.current_match - 1;
        }
        self.jump_to_current_match();
    }
}


impl ScrollbackWidget {
    /// The height of the content area inside the border; an active
    /// search box takes two rows from the bottom.
    pub open spec fn content_height_spec(self) -> int {
        let ih = self.last_area.inner_spec().height as int;
        if self.search_mode != SearchMode::Closed && ih > 1 {
            ih - 2
        } else {
            ih
        }
    }

    /// The first column of content, after the border and the gutter.
    pub open spec fn content_start_x_spec(self) -> int {
        let inner = self.last_area.inner_spec();
        let ln = self.ln_width_spec(self.buffer@.len() as int + 1);
        inner.x + if ln > 0 {
            ln + 1
        } else {
            0int
        }
    }

    /// One column past the content area.
    pub open spec fn content_end_x_spec(self) -> int {
        let inner = self.last_area.inner_spec();
        inner.x + inner.width
    }

    fn content_height(&self) -> (r: usize)
        requires
            self.last_area.x < u16::MAX,
            self.last_area.y < u16::MAX,
        ensures
            r == self.content_height_spec(),
    {
        let inner = self.last_area.inner();
        let ih = inner.height as usize;
        if self.search_mode.is_active() && ih > 1 {
            ih - 2
        } else {
            ih
        }
    }

    fn content_start_x(&self) -> (r: usize)
        requires
            self.last_area.x < u16::MAX,
            self.last_area.y < u16::MAX,
        ensures
            r == self.content_start_x_spec(),
    {
        let inner = self.last_area.inner();
        let ln = self.calculate_line_num_width(
            if self.buffer.len() < usize::MAX {
                self.buffer.len() + 1
            } else {
                usize::MAX
            },
        );
        inner.x as usize + if ln > 0 {
            ln + 1
        } else {
            0
        }
    }

    /// Where a content-relative cell lands in clip mode: the row offset
    /// names the line, the column offset plus the horizontal scroll
    /// names the character, clamped to the line end.
    pub open spec fn stbp_clipped_spec(self, cx: int, cy: int) -> Option<(int, int)> {
        let l = self.vertical_offset + cy;
        if l >= self.buffer@.len() {
            None
        } else {
            let len = self.buffer@[l]@.len() as int;
            let c: int = if self.horizontal_offset + cx <= len {
                self.horizontal_offset + cx
            } else {
                len
            };
            Some((l, c))
        }
    }

    /// Where a content-relative cell lands in wrap mode: the row offset
    /// names a wrap segment, a continuation row first sheds the indent,
    /// and the character index is clamped to the segment and the line.
    pub open spec fn stbp_wrapped_spec(self, cx: int, cy: int) -> Option<(int, int)> {
        let wi = self.vertical_offset + cy;
        if wi >= self.wrapped_lines@.len() {
            None
        } else {
            let e = self.wrapped_lines@[wi];
            if e.0 >= self.buffer@.len() {
                None
            } else {
                let cxa: int = if e.1 > 0 {
                    if cx >= self.wrap_indent {
                        cx - self.wrap_indent
                    } else {
                        0
                    }
                } else {
                    cx
                };
                let a = e.1 + cxa;
                let b: int = if a <= e.2 {
                    a
                } else {
                    e.2 as int
                };
                let len = self.buffer@[e.0 as int]@.len() as int;
                let c: int = if b <= len {
                    b
                } else {
                    len
                };
                Some((e.0 as int, c))
            }
        }
    }

    /// Where a screen cell lands in the buffer: nothing outside the
    /// content rows or left of the content columns; otherwise the
    /// clip-mode or wrap-mode transform of the content-relative cell.
    pub open spec fn screen_to_buffer_spec(self, x: int, y: int) -> Option<(int, int)> {
        let inner = self.last_area.inner_spec();
        if y < inner.y || y >= inner.y + self.content_height_spec() {
            None
        } else if x < self.content_start_x_spec() {
            None
        } else {
            let cx = x - self.content_start_x_spec();
            let cy = y - inner.y;
            if self.wrap_lines {
                self.stbp_wrapped_spec(cx, cy)
            } else {
                self.stbp_clipped_spec(cx, cy)
            }
        }
    }

    /// Where a screen cell lands in the buffer: the logical line and
    /// character index under the pointer, or nothing when the pointer is
    /// outside the content rows. The result always lies inside the
    /// buffer, with the character index clamped to the line's length.
    pub fn screen_to_buffer_position(&self, x: u16, y: u16) -> (r: Option<(usize, usize)>)
        requires
            self.wf(),
            self.last_area.x < u16::MAX,
            self.last_area.y < u16::MAX,
        ensures
            match r {
                Some((l, c)) => l < self.buffer@.len() && c <= self.buffer@[l as int]@.len()
                    && self.screen_to_buffer_spec(x as int, y as int) == Some((l as int, c as int)),
                None => self.screen_to_buffer_spec(x as int, y as int) is None,
            },
    {
        let inner = self.last_area.inner();
        let content_height = self.content_height();
        if (y as usize) < inner.y as usize || (y as usize) >= inner.y as usize + content_height {
            return None;
        }
        let csx = self.content_start_x();
        if (x as usize) < csx {
            return None;
        }
        let content_x = x as usize - csx;
        let content_y = y as usize - inner.y as usize;
        if self.wrap_lines {
            self.screen_to_buffer_position_wrapped(content_x, content_y)
        } else {
            self.screen_to_buffer_position_clipped(content_x, content_y)
        }
    }

    /// Clip mode: the row offset names the line, the column offset plus
    /// the horizontal scroll names the character, clamped to the line
    /// end so a drag may run past the visible text.
    fn screen_to_buffer_position_clipped(&self, content_x: usize, content_y: usize) -> (r: Option<
        (usize, usize),
    >)
        requires
            self.wf(),
        ensures
            match r {
                Some((l, c)) => {
                    &&& l < self.buffer@.len()
                    &&& c <= self.buffer@[l as int]@.len()
                    &&& self.stbp_clipped_spec(content_x as int, content_y as int) == Some(
                        (l as int, c as int),
                    )
                },
                None => self.stbp_clipped_spec(content_x as int, content_y as int) is None,
            },
    {
        if content_y > usize::MAX - self.vertical_offset {
            return None;
        }
        let line_idx = self.vertical_offset + content_y;
        if line_idx >= self.buffer.len() {
            return None;
        }
        let line_len = self.buffer[line_idx].len();
        let char_idx = if content_x > usize::MAX - self.horizontal_offset {
            line_len
        } else if self.horizontal_offset + content_x <= line_len {
            self.horizontal_offset + content_x
        } else {
            line_len
        };
        Some((line_idx, char_idx))
    }

    /// Wrap mode: the row offset names a wrap segment; a continuation
    /// row first sheds the indent, and the character index stays inside
    /// the segment and the line.
    fn screen_to_buffer_position_wrapped(&self, content_x: usize, content_y: usize) -> (r: Option<
        (usize, usize),
    >)
        requires
            self.wf(),
        ensures
            match r {
                Some((l, c)) => l < self.buffer@.len() && c <= self.buffer@[l as int]@.len()
                    && self.stbp_wrapped_spec(content_x as int, content_y as int) == Some(
                    (l as int, c as int),
                ),
                None => self.stbp_wrapped_spec(content_x as int, content_y as int) is None,
            },
    {
        let n = self.wrapped_lines.len();
        if content_y > usize::MAX - self.vertical_offset {
            return None;
        }
        let wrapped_idx = self.vertical_offset + content_y;
        if wrapped_idx >= n {
            return None;
        }
        let (orig, start_char, end_char) = self.wrapped_lines[wrapped_idx];
        if orig >= self.buffer.len() {
            return None;
        }
        let cx = if start_char > 0 {
            if content_x >= self.wrap_indent {
                content_x - self.wrap_indent
            } else {
                0
            }
        } else {
            content_x
        };
        let line_len = self.buffer[orig].len();
        let a = if cx > usize::MAX - start_char {
            usize::MAX
        } else {
            start_char + cx
        };
        let b = if a <= end_char {
            a
        } else {
            end_char
        };
        let c = if b <= line_len {
            b
        } else {
            line_len
        };
        Some((orig, c))
    }

    /// Clears the selection if one is active.
    pub fn clear_selection(&mut self)
        requires
            old(self).wf(),
        ensures
            final(self).wf(),
            !final(self).selection.active,
            old(self).selection.active ==> *final(self) == (ScrollbackWidget {
                selection: final(self).selection,
                mouse_is_down: false,
                status: final(self).status,
                redraw_requested: true,
                ..*old(self)
            }),
            !old(self).selection.active ==> *final(self) == *old(self),
            final(self).buffer@ == old(self).buffer@,
    {
        if self.selection.is_active() {
            self.selection.clear();
            self.mouse_is_down = false;
            self.recalculate_status();
            self.request_redraw();
        }
    }

    /// Selects the whole buffer, anchor at the very first character and
    /// end past the last character of the last line.
    pub fn select_all(&mut self)
        requires
            old(self).wf(),
        ensures
            final(self).wf(),
            old(self).buffer@.len() == 0 ==> *final(self) == *old(self),
            old(self).buffer@.len() > 0 ==> {
                &&& final(self).selection.active
                &&& final(self).selection.start.line == 0
                &&& final(self).selection.start.char_idx == 0
                &&& final(self).selection.end.line == old(self).buffer@.len() - 1
                &&& final(self).selection.end.char_idx == old(self).buffer@[old(self).buffer@.len() - 1]@.len()
                &&& final(self).redraw_requested
            },
            final(self).buffer@ == old(self).buffer@,
    {
        if self.buffer.len() > 0 {
            let last_line = self.buffer.len() - 1;
            let last_char = self.buffer[last_line].len();
            self.selection.start_selection(0, 0);
            self.selection.update_end(last_line, last_char);
            self.recalculate_status();
            self.drag_scroll_to_selection_bounds();
            self.request_redraw();
        }
    }

    /// In clip mode, scrolls horizontally so the selection's columns
    /// come into view, roughly centred.
    fn drag_scroll_to_selection_bounds(&mut self)
        requires
            old(self).wf(),
        ensures
            final(self).wf(),
            *final(self) == (ScrollbackWidget {
                horizontal_offset: final(self).horizontal_offset,
                redraw_requested: final(self).redraw_requested,
                ..*old(self)
            }),
            old(self).redraw_requested ==> final(self).redraw_requested,
    {
        if !self.selection.is_active() || self.wrap_lines {
            return ;
        }
        let (start, end) = self.selection.normalize();
        let mut min_char: usize = usize::MAX;
        let mut max_char: usize = 0;
        let mut line_idx = start.line;
        while line_idx <= end.line && line_idx < self.buffer.len()
            invariant
                self.wf(),
                *self == *old(self),
                start.line <= line_idx,
            decreases end.line + 1 - line_idx,
        {
            let line_len = self.buffer[line_idx].len();
            let (sc, ec): (usize, usize) = if line_idx == start.line && line_idx == end.line {
                (start.char_idx, end.char_idx)
            } else if line_idx == start.line {
                (start.char_idx, line_len)
            } else if line_idx == end.line {
                (0, end.char_idx)
            } else {
                (0, line_len)
            };
            if sc < min_char {
                min_char = sc;
            }
            if ec > max_char {
                max_char = ec;
            }
            if line_idx == usize::MAX {
                break ;
            }
            line_idx = line_idx + 1;
        }
        if min_char == usize::MAX {
            return ;
        }
        let visible_start = self.horizontal_offset;
        let visible_end = if self.inner_width > usize::MAX - visible_start {
            usize::MAX
        } else {
            visible_start + self.inner_width
        };
        if min_char < visible_start || max_char > visible_end {
            let selection_width = if max_char >= min_char {
                max_char - min_char
            } else {
                0
            };
            let margin = if self.inner_width >= selection_width {
                (self.inner_width - selection_width) / 2
            } else {
                0
            };
            let new_offset = if min_char >= margin {
                min_char - margin
            } else {
                0
            };
            self.horizontal_offset = if new_offset <= self.max_line_width {
                new_offset
            } else {
                self.max_line_width
            };
            self.request_redraw();
        }
    }

    /// In clip mode, scrolls horizontally so the given character comes
    /// into view, leaving a small margin.
    #[verifier::rlimit(60)]
    fn drag_scroll_to_char(&mut self, line_idx: usize, char_idx: usize)
        requires
            old(self).wf(),
        ensures
            final(self).wf(),
            *final(self) == (ScrollbackWidget {
                horizontal_offset: final(self).horizontal_offset,
                redraw_requested: final(self).redraw_requested,
                ..*old(self)
            }),
            old(self).redraw_requested ==> final(self).redraw_requested,
    {
        if self.wrap_lines || line_idx >= self.buffer.len() {
            return ;
        }
        let line_len = self.buffer[line_idx].len();
        if char_idx >= line_len {
            return ;
        }
        let visible_start = self.horizontal_offset;
        let visible_end = if self.inner_width > usize::MAX - visible_start {
            usize::MAX
        } else {
            visible_start + self.inner_width
        };
        if char_idx < visible_start {
            let new_offset = if char_idx >= self.inner_width / 4 {
                char_idx - self.inner_width / 4
            } else {
                0
            };
            self.horizontal_offset = new_offset;
            self.request_redraw();
        } else if char_idx >= visible_end {
            let new_offset = if char_idx > usize::MAX - self.inner_width / 4 {
                usize::MAX
            } else {
                char_idx + self.inner_width / 4
            };
            self.horizontal_offset = if new_offset <= self.max_line_width {
                new_offset
            } else {
                self.max_line_width
            };
            self.request_redraw();
        }
    }
}


/// Appends the characters of `line[sc..ec]`, styles stripped.
fn push_char_range(acc: &mut Vec<char>, line: &Vec<StyledChar>, sc: usize, ec: usize)
    requires
        sc <= ec,
        ec <= line@.len(),
    ensures
        final(acc)@ =~= old(acc)@ + crate::style::chars_of(line@.subrange(sc as int, ec as int)),
{
    let n0 = acc.len();
    let mut i = sc;
    while i < ec
        invariant
            sc <= i <= ec,
            ec <= line@.len(),
            n0 == old(acc)@.len(),
            acc@.len() == n0 + i - sc,
            forall|j: int| 0 <= j && j < n0 ==> acc@[j] == old(acc)@[j],
            forall|j: int|
                n0 <= j && j < acc@.len() ==> acc@[j] == line@[j - n0 + sc].ch,
        decreases ec - i,
    {
        let c = line[i].ch;
        acc.push(c);
        i = i + 1;
    }
    proof {
        let target = old(acc)@ + crate::style::chars_of(line@.subrange(sc as int, ec as int));
        assert forall|j: int| 0 <= j && j < target.len() implies acc@[j] == target[j] by {
            if j >= n0 {
                assert(crate::style::chars_of(line@.subrange(sc as int, ec as int))[j - n0]
                    == line@.subrange(sc as int, ec as int)[j - n0].ch);
            }
        }
        assert(acc@ =~= target);
    }
}

impl ScrollbackWidget {
    /// The character range of line `l` that the selection covers for
    /// text extraction. A first line that is clipped at either side is
    /// taken whole, so copying never silently truncates text that is
    /// present but scrolled out of view.
    pub open spec fn sel_piece_range(self, l: int) -> (int, int) {
        let (start, end) = self.selection.normalize_spec();
        let len = self.buffer@[l]@.len() as int;
        if l == start.line && l == end.line {
            (
                start.char_idx as int,
                if end.char_idx as int <= len {
                    end.char_idx as int
                } else {
                    len
                },
            )
        } else if l == start.line {
            if self.wrap_lines {
                (start.char_idx as int, len)
            } else {
                let visible_end = self.horizontal_offset + self.inner_width;
                if len > visible_end || self.horizontal_offset > 0 {
                    (start.char_idx as int, len)
                } else {
                    (
                        start.char_idx as int,
                        if len <= visible_end {
                            len
                        } else {
                            visible_end
                        },
                    )
                }
            }
        } else if l == end.line {
            (
                0int,
                if end.char_idx as int <= len {
                    end.char_idx as int
                } else {
                    len
                },
            )
        } else {
            (0int, len)
        }
    }

    /// The characters line `l` contributes to the extracted text.
    pub open spec fn sel_piece(self, l: int) -> Seq<char> {
        let r = self.sel_piece_range(l);
        crate::style::chars_of(self.buffer@[l]@.subrange(r.0, r.1))
    }

    /// The extracted text of the first `k` selected lines: pieces in
    /// line order, a newline before each piece that follows a non-empty
    /// accumulation.
    pub open spec fn sel_text_rec(self, k: int) -> Seq<char>
        decreases k,
    {
        if k <= 0 {
            Seq::empty()
        } else {
            let prev = self.sel_text_rec(k - 1);
            let piece = self.sel_piece(self.selection.normalize_spec().0.line + k - 1);
            if prev.len() == 0 {
                piece
            } else {
                prev.push('\n') + piece
            }
        }
    }

    /// The whole extracted text of the selection.
    pub open spec fn selected_text_spec(self) -> Seq<char> {
        let (start, end) = self.selection.normalize_spec();
        self.sel_text_rec(end.line - start.line + 1)
    }

    /// The currently selected text, lines joined with newlines; nothing
    /// when no selection is active or it covers no characters.
    pub fn get_selected_text(&self) -> (r: Option<String>)
        requires
            self.wf(),
        ensures
            !self.selection.active ==> r.is_none(),
            self.selection.active ==> match r {
                Some(s) => s@ == self.selected_text_spec() && self.selected_text_spec().len() > 0,
                None => self.selected_text_spec().len() == 0,
            },
    {
        if !self.selection.is_active() {
            return None;
        }
        let (start, end) = self.normalize_selection();
        let mut acc: Vec<char> = Vec::new();
        let mut l = start.line;
        while l <= end.line
            invariant
                self.wf(),
                self.selection.active,
                (start, end) == self.selection.normalize_spec(),
                start.line <= l,
                l <= end.line + 1,
                end.line < self.buffer@.len(),
                acc@ == self.sel_text_rec(l - start.line),
            decreases end.line + 1 - l,
        {
            let line_len = self.buffer[l].len();
            let (sc, ec): (usize, usize) = if l == start.line && l == end.line {
                (
                    start.char_idx,
                    if end.char_idx <= line_len {
                        end.char_idx
                    } else {
                        line_len
                    },
                )
            } else if l == start.line {
                if self.wrap_lines {
                    (start.char_idx, line_len)
                } else {
                    let visible_end = if self.inner_width > usize::MAX - self.horizontal_offset {
                        usize::MAX
                    } else {
                        self.horizontal_offset + self.inner_width
                    };
                    if line_len > visible_end || self.horizontal_offset > 0 {
                        (start.char_idx, line_len)
                    } else {
                        (
                            start.char_idx,
                            if line_len <= visible_end {
                                line_len
                            } else {
                                visible_end
                            },
                        )
                    }
                }
            } else if l == end.line {
                (
                    0,
                    if end.char_idx <= line_len {
                        end.char_idx
                    } else {
                        line_len
                    },
                )
            } else {
                (0, line_len)
            };
            proof {
                assert((sc as int, ec as int) == self.sel_piece_range(l as int));
            }
            if acc.len() > 0 {
                acc.push('\n');
            }
            push_char_range(&mut acc, &self.buffer[l], sc, ec);
            proof {
                assert(acc@ =~= self.sel_text_rec(l - start.line + 1));
            }
            l = l + 1;
        }
        if acc.len() == 0 {
            None
        } else {
            Some(crate::text::chars_to_string(&acc))
        }
    }

    /// The selection's endpoints in document order.
    pub fn normalize_selection(&self) -> (r: (
        crate::selection::SelectionStart,
        crate::selection::SelectionEnd,
    ))
        ensures
            r == self.selection.normalize_spec(),
    {
        self.selection.normalize()
    }

    /// Queues the selected text for the platform clipboard; the
    /// application drains the request with `take_copy_request` and hands
    /// it over, best-effort. Reports whether there was text to copy.
    #[verifier::rlimit(60)]
    pub fn copy_selection(&mut self) -> (copied: bool)
        requires
            old(self).wf(),
        ensures
            final(self).wf(),
            copied == (old(self).selection.active && old(self).selected_text_spec().len() > 0),
            copied ==> match final(self).pending_copy {
                Some(t) => t@ == old(self).selected_text_spec(),
                None => false,
            },
            !copied ==> final(self).pending_copy == old(self).pending_copy,
            *final(self) == (ScrollbackWidget {
                pending_copy: final(self).pending_copy,
                ..*old(self)
            }),
    {
        let text = self.get_selected_text();
        match text {
            None => false,
            Some(t) => {
                self.pending_copy = Some(t);
                true
            },
        }
    }

    /// Hands out and clears any queued clipboard text.
    pub fn take_copy_request(&mut self) -> (r: Option<String>)
        requires
            old(self).wf(),
        ensures
            final(self).wf(),
            r == old(self).pending_copy,
            *final(self) == (ScrollbackWidget { pending_copy: None, ..*old(self) }),
    {
        let mut r: Option<String> = None;
        std::mem::swap(&mut r, &mut self.pending_copy);
        r
    }
}


impl ScrollbackWidget {
    /// Which of the nine drag zones the pointer is in: outside or near
    /// an edge of the content area names a scroll direction, anywhere
    /// else is idle. The edge margin is four cells.
    pub open spec fn drag_zone_spec(self, x: int, y: int) -> DragDirection {
        let csx = self.content_start_x_spec();
        let cex = self.content_end_x_spec();
        let inner = self.last_area.inner_spec();
        let csy = inner.y as int;
        let cey = inner.y + self.content_height_spec();
        let margin = 4int;
        if y < csy {
            if x < csx {
                DragDirection::UpLeft
            } else if x >= cex {
                DragDirection::UpRight
            } else {
                DragDirection::Up
            }
        } else if y >= cey {
            if x < csx {
                DragDirection::DownLeft
            } else if x >= cex {
                DragDirection::DownRight
            } else {
                DragDirection::Down
            }
        } else if x < csx {
            DragDirection::Left
        } else if x >= cex {
            DragDirection::Right
        } else if x < csx + margin {
            DragDirection::Left
        } else if cex - margin <= x {
            DragDirection::Right
        } else if y < csy + margin {
            DragDirection::Up
        } else if cey - margin <= y {
            DragDirection::Down
        } else {
            DragDirection::Idle
        }
    }

    /// Classifies the pointer into a drag zone; a zone change restarts
    /// the drag timer.
    #[verifier::rlimit(100)]
    fn update_drag_scroll_state(&mut self, x: u16, y: u16, now_ms: u64)
        requires
            old(self).wf(),
            old(self).last_area.x < u16::MAX,
            old(self).last_area.y < u16::MAX,
        ensures
            final(self).wf(),
            *final(self) == (ScrollbackWidget {
                drag_direction: final(self).drag_direction,
                drag_scroll_timer_ms: final(self).drag_scroll_timer_ms,
                ..*old(self)
            }),
            final(self).drag_direction == old(self).drag_zone_spec(x as int, y as int),
            final(self).drag_direction == old(self).drag_direction ==> *final(self) == *old(self),
            final(self).drag_direction != old(self).drag_direction ==> final(self).drag_scroll_timer_ms == if final(self).drag_direction != DragDirection::Idle {
                Some(now_ms)
            } else {
                None::<u64>
            },
    {
        let inner = self.last_area.inner();
        let content_height = self.content_height();
        let csx = self.content_start_x();
        let cex = inner.x as usize + inner.width as usize;
        let csy = inner.y as usize;
        let cey = inner.y as usize + content_height;
        let margin: usize = 4;
        let xu = x as usize;
        let yu = y as usize;
        let new_direction = if yu < csy {
            if xu < csx {
                DragDirection::UpLeft
            } else if xu >= cex {
                DragDirection::UpRight
            } else {
                DragDirection::Up
            }
        } else if yu >= cey {
            if xu < csx {
                DragDirection::DownLeft
            } else if xu >= cex {
                DragDirection::DownRight
            } else {
                DragDirection::Down
            }
        } else if xu < csx {
            DragDirection::Left
        } else if xu >= cex {
            DragDirection::Right
        } else if xu < csx + margin {
            DragDirection::Left
        } else if cex >= margin && cex - margin <= xu {
            DragDirection::Right
        } else if yu < csy + margin {
            DragDirection::Up
        } else if cey >= margin && cey - margin <= yu {
            DragDirection::Down
        } else {
            DragDirection::Idle
        };
        if new_direction != self.drag_direction {
            self.drag_direction = new_direction;
            self.drag_scroll_timer_ms = if new_direction.is_some() {
                Some(now_ms)
            } else {
                None
            };
        }
    }



    /// The offsets one drag step produces from state `pre`: a vertical
    /// step of `va` rows up or down, a horizontal step of `ha` columns
    /// left or right (skipped in wrap mode), diagonals combining both,
    /// each clamped at its bound.
    pub open spec fn drag_step_offsets(pre: ScrollbackWidget, v2: int, h2: int, va: int, ha: int) -> bool {
        let v_up: int = if pre.vertical_offset >= va {
            pre.vertical_offset - va
        } else {
            0
        };
        let v_down: int = if pre.vertical_offset + va > pre.max_scroll_spec() {
            pre.max_scroll_spec()
        } else {
            pre.vertical_offset + va
        };
        let h_left: int = if pre.wrap_lines {
            pre.horizontal_offset as int
        } else if pre.horizontal_offset >= ha {
            pre.horizontal_offset - ha
        } else {
            0
        };
        let h_right: int = if pre.wrap_lines {
            pre.horizontal_offset as int
        } else if pre.horizontal_offset + ha > pre.h_scroll_bound_spec() {
            pre.h_scroll_bound_spec()
        } else {
            pre.horizontal_offset + ha
        };
        let v_same: int = pre.vertical_offset as int;
        let h_same: int = pre.horizontal_offset as int;
        match pre.drag_direction {
            DragDirection::Idle => v2 == v_same && h2 == h_same,
            DragDirection::Up => v2 == v_up && h2 == h_same,
            DragDirection::Down => v2 == v_down && h2 == h_same,
            DragDirection::Left => v2 == v_same && h2 == h_left,
            DragDirection::Right => v2 == v_same && h2 == h_right,
            DragDirection::UpLeft => v2 == v_up && h2 == h_left,
            DragDirection::UpRight => v2 == v_up && h2 == h_right,
            DragDirection::DownLeft => v2 == v_down && h2 == h_left,
            DragDirection::DownRight => v2 == v_down && h2 == h_right,
        }
    }

    /// One scroll step in the active drag direction; diagonal zones
    /// combine a vertical and a horizontal step, and horizontal motion
    /// is skipped in wrap mode.
    #[verifier::rlimit(100)]
    fn drag_step(&mut self, vertical_amount: usize, horizontal_amount: usize)
        requires
            old(self).wf(),
        ensures
            final(self).wf(),
            *final(self) == (ScrollbackWidget {
                vertical_offset: final(self).vertical_offset,
                horizontal_offset: final(self).horizontal_offset,
                auto_scroll: final(self).auto_scroll,
                status: final(self).status,
                redraw_requested: final(self).redraw_requested,
                ..*old(self)
            }),
            Self::drag_step_offsets(
                *old(self),
                final(self).vertical_offset as int,
                final(self).horizontal_offset as int,
                vertical_amount as int,
                horizontal_amount as int,
            ),
    {
        match self.drag_direction {
            DragDirection::Idle => {},
            DragDirection::Up => {
                self.scroll_up(vertical_amount);
            },
            DragDirection::Down => {
                self.scroll_down(vertical_amount);
            },
            DragDirection::Left => {
                if !self.wrap_lines {
                    self.scroll_left(horizontal_amount);
                }
            },
            DragDirection::Right => {
                if !self.wrap_lines {
                    self.scroll_right(horizontal_amount);
                }
            },
            DragDirection::UpLeft => {
                self.scroll_up(vertical_amount);
                if !self.wrap_lines {
                    self.scroll_left(horizontal_amount);
                }
            },
            DragDirection::UpRight => {
                self.scroll_up(vertical_amount);
                if !self.wrap_lines {
                    self.scroll_right(horizontal_amount);
                }
            },
            DragDirection::DownLeft => {
                self.scroll_down(vertical_amount);
                if !self.wrap_lines {
                    self.scroll_left(horizontal_amount);
                }
            },
            DragDirection::DownRight => {
                self.scroll_down(vertical_amount);
                if !self.wrap_lines {
                    self.scroll_right(horizontal_amount);
                }
            },
        }
    }

    /// One drag-scroll step, driven from the frame hook so scrolling
    /// continues while the pointer is still. Scroll speed and step ramp
    /// up after half a second; a step that moves nothing clears the
    /// controller so it never spins at the end of the content.
    #[verifier::rlimit(100)]
    pub fn perform_drag_scroll(&mut self, now_ms: u64)
        requires
            old(self).wf(),
        ensures
            final(self).wf(),
            *final(self) == (ScrollbackWidget {
                vertical_offset: final(self).vertical_offset,
                horizontal_offset: final(self).horizontal_offset,
                auto_scroll: final(self).auto_scroll,
                drag_direction: final(self).drag_direction,
                drag_scroll_timer_ms: final(self).drag_scroll_timer_ms,
                status: final(self).status,
                redraw_requested: final(self).redraw_requested,
                ..*old(self)
            }),
            old(self).drag_direction == DragDirection::Idle || old(self).drag_scroll_timer_ms
                is None ==> *final(self) == *old(self),
            old(self).drag_direction != DragDirection::Idle ==> match old(self).drag_scroll_timer_ms {
                None => true,
                Some(t) => {
                    let elapsed: int = if now_ms >= t {
                        now_ms - t
                    } else {
                        0
                    };
                    let interval: int = if elapsed > 500 {
                        50
                    } else {
                        150
                    };
                    if elapsed < interval {
                        *final(self) == *old(self)
                    } else {
                        let va: int = if elapsed > 500 {
                            3
                        } else {
                            2
                        };
                        let ha: int = if elapsed > 500 {
                            5
                        } else {
                            8
                        };
                        let stepped = final(self).vertical_offset != old(self).vertical_offset
                            || final(self).horizontal_offset != old(self).horizontal_offset;
                        &&& Self::drag_step_offsets(
                            *old(self),
                            final(self).vertical_offset as int,
                            final(self).horizontal_offset as int,
                            va,
                            ha,
                        )
                        &&& (stepped ==> final(self).drag_direction == old(self).drag_direction
                            && final(self).drag_scroll_timer_ms == Some(now_ms))
                        &&& (!stepped ==> final(self).drag_direction == DragDirection::Idle
                            && final(self).drag_scroll_timer_ms is None)
                    }
                },
            },
    {
        if matches!(self.drag_direction, DragDirection::Idle) {
            return ;
        }
        let timer = match self.drag_scroll_timer_ms {
            None => { return ; },
            Some(t) => t,
        };
        let elapsed = if now_ms >= timer {
            now_ms - timer
        } else {
            0
        };
        let scroll_interval: u64 = if elapsed > 500 {
            50
        } else {
            150
        };
        if elapsed < scroll_interval {
            return ;
        }
        self.drag_scroll_timer_ms = Some(now_ms);
        let vertical_amount: usize = if elapsed > 500 {
            3
        } else {
            2
        };
        let horizontal_amount: usize = if elapsed > 500 {
            5
        } else {
            8
        };
        let old_v = self.vertical_offset;
        let old_h = self.horizontal_offset;
        self.drag_step(vertical_amount, horizontal_amount);
        let did_scroll = old_v != self.vertical_offset || old_h != self.horizontal_offset;
        if !did_scroll {
            self.drag_direction = DragDirection::Idle;
            self.drag_scroll_timer_ms = None;
        }
    }

    /// Extends the selection to a position past the right edge during a
    /// drag, clamped to the line under the pointer.
    #[verifier::rlimit(100)]
    fn handle_edge_selection(&mut self, x: u16, y: u16)
        requires
            old(self).wf(),
            old(self).last_area.x < u16::MAX,
            old(self).last_area.y < u16::MAX,
        ensures
            final(self).wf(),
            *final(self) == (ScrollbackWidget {
                selection: final(self).selection,
                last_mouse_in_bounds: final(self).last_mouse_in_bounds,
                redraw_requested: final(self).redraw_requested,
                ..*old(self)
            }),
            old(self).redraw_requested ==> final(self).redraw_requested,
    {
        let inner = self.last_area.inner();
        let content_height = self.content_height();
        if (y as usize) < inner.y as usize || (y as usize) >= inner.y as usize + content_height {
            self.last_mouse_in_bounds = false;
            return ;
        }
        let csx = self.content_start_x();
        let cex = inner.x as usize + inner.width as usize;
        if (x as usize) >= cex {
            let content_y = y as usize - inner.y as usize;
            if content_y > usize::MAX - self.vertical_offset {
                return ;
            }
            let line_idx = self.vertical_offset + content_y;
            if line_idx < self.buffer.len() {
                let line_len = self.buffer[line_idx].len();
                let chars_beyond = (x as usize - cex) + 1;
                let visible_width = if cex >= csx {
                    cex - csx
                } else {
                    0
                };
                let a = if visible_width > usize::MAX - self.horizontal_offset {
                    usize::MAX
                } else {
                    self.horizontal_offset + visible_width
                };
                let target = if chars_beyond > usize::MAX - a {
                    usize::MAX
                } else {
                    a + chars_beyond
                };
                let final_char_idx = if target <= line_len {
                    target
                } else {
                    line_len
                };
                self.selection.update_end(line_idx, final_char_idx);
                self.last_mouse_in_bounds = false;
                self.request_redraw();
            }
        }
    }

    /// Whether the pointer is over the content text.
    fn is_position_in_content_area(&self, x: u16, y: u16) -> (b: bool)
        requires
            self.wf(),
            self.last_area.x < u16::MAX,
            self.last_area.y < u16::MAX,
    {
        let inner = self.last_area.inner();
        let content_height = self.content_height();
        if (y as usize) >= inner.y as usize + content_height {
            return false;
        }
        if (x as usize) < inner.x as usize || (x as usize) >= inner.x as usize
            + inner.width as usize || (y as usize) < inner.y as usize || (y as usize)
            >= inner.y as usize + inner.height as usize {
            return false;
        }
        let csx = self.content_start_x();
        (x as usize) >= csx
    }

    /// Whether the pointer is over the line-number gutter.
    fn is_position_in_line_numbers(&self, x: u16, y: u16) -> (b: bool)
        requires
            self.wf(),
            self.last_area.x < u16::MAX,
            self.last_area.y < u16::MAX,
    {
        if !self.show_line_numbers {
            return false;
        }
        let inner = self.last_area.inner();
        let content_height = self.content_height();
        if (y as usize) >= inner.y as usize + content_height {
            return false;
        }
        let ln = self.calculate_line_num_width(
            if self.buffer.len() < usize::MAX {
                self.buffer.len() + 1
            } else {
                usize::MAX
            },
        );
        let line_num_end = inner.x as usize + ln;
        (x as usize) >= inner.x as usize && (x as usize) < line_num_end && (y as usize)
            >= inner.y as usize && (y as usize) < inner.y as usize + inner.height as usize
    }

    /// Whether the pointer is over the indent cells of a continuation
    /// row, which hold no selectable text.
    fn is_in_wrap_indent_area(&self, x: u16, y: u16) -> (b: bool)
        requires
            self.wf(),
            self.last_area.x < u16::MAX,
            self.last_area.y < u16::MAX,
    {
        if !self.wrap_lines || self.wrap_indent == 0 {
            return false;
        }
        let inner = self.last_area.inner();
        let csx = self.content_start_x();
        if (x as usize) < csx || (y as usize) < inner.y as usize {
            return false;
        }
        let content_x = x as usize - csx;
        let content_y = y as usize - inner.y as usize;
        if content_y > usize::MAX - self.vertical_offset {
            return false;
        }
        let wrapped_idx = self.vertical_offset + content_y;
        if wrapped_idx >= self.wrapped_lines.len() {
            return false;
        }
        let (_, start_char, _) = self.wrapped_lines[wrapped_idx];
        start_char > 0 && content_x < self.wrap_indent
    }

    /// Updates the cursor shape for the pointer position, reporting
    /// whether it changed; the application applies the shape. A held
    /// button means selecting; over the gutter, the gutter arrow; over
    /// content, a text beam, except on a continuation row's indent
    /// cells.
    pub fn update_cursor_state(&mut self, x: u16, y: u16) -> (changed: bool)
        requires
            old(self).wf(),
            old(self).last_area.x < u16::MAX,
            old(self).last_area.y < u16::MAX,
        ensures
            final(self).wf(),
            *final(self) == (ScrollbackWidget {
                cursor_state: final(self).cursor_state,
                ..*old(self)
            }),
            changed == (final(self).cursor_state != old(self).cursor_state),
            old(self).mouse_is_down ==> final(self).cursor_state == CursorState::Selecting,
    {
        let new_state = if self.mouse_is_down {
            CursorState::Selecting
        } else if self.is_position_in_line_numbers(x, y) {
            CursorState::LineNumber
        } else if self.is_position_in_content_area(x, y) {
            if self.wrap_lines && self.is_in_wrap_indent_area(x, y) {
                CursorState::Arrow
            } else {
                CursorState::Text
            }
        } else {
            CursorState::Arrow
        };
        if self.cursor_state != new_state {
            self.cursor_state = new_state;
            true
        } else {
            false
        }
    }

    fn reset_cursor(&mut self)
        requires
            old(self).wf(),
        ensures
            final(self).wf(),
            *final(self) == (ScrollbackWidget { cursor_state: CursorState::Arrow, ..*old(self) }),
    {
        self.cursor_state = CursorState::Arrow;
    }

    /// A left press over content anchors a new selection there.
    fn handle_mouse_press(&mut self, x: u16, y: u16)
        requires
            old(self).wf(),
            old(self).last_area.x < u16::MAX,
            old(self).last_area.y < u16::MAX,
        ensures
            final(self).wf(),
    {
        let pos = self.screen_to_buffer_position(x, y);
        if let Some((line_idx, char_idx)) = pos {
            self.selection.start_selection(line_idx, char_idx);
            self.recalculate_status();
            self.mouse_is_down = true;
            self.request_redraw();
            if !self.wrap_lines {
                self.drag_scroll_to_char(line_idx, char_idx);
            }
        }
    }

    /// A drag with the button held extends the selection and keeps the
    /// drag-scroll zone up to date.
    fn handle_mouse_drag(&mut self, x: u16, y: u16, now_ms: u64)
        requires
            old(self).wf(),
            old(self).last_area.x < u16::MAX,
            old(self).last_area.y < u16::MAX,
        ensures
            final(self).wf(),
    {
        if !self.mouse_is_down {
            return ;
        }
        self.update_drag_scroll_state(x, y, now_ms);
        let pos = self.screen_to_buffer_position(x, y);
        if let Some((line_idx, char_idx)) = pos {
            self.selection.update_end(line_idx, char_idx);
            self.last_mouse_in_bounds = true;
            self.request_redraw();
        } else {
            self.handle_edge_selection(x, y);
        }
    }

    /// Releasing the button ends the drag and any drag-scroll.
    fn handle_mouse_release(&mut self)
        requires
            old(self).wf(),
        ensures
            final(self).wf(),
            !final(self).mouse_is_down,
            final(self).drag_direction == DragDirection::Idle,
            final(self).drag_scroll_timer_ms is None,
    {
        self.mouse_is_down = false;
        self.drag_direction = DragDirection::Idle;
        self.drag_scroll_timer_ms = None;
        if self.last_area.x < u16::MAX && self.last_area.y < u16::MAX {
            if let Some((x, y)) = self.last_mouse_pos {
                let _ = self.update_cursor_state(x, y);
            }
        }
    }
}


/// Whether match `m` of a term of length `tl` covers character `idx` of
/// line `l`.
pub open spec fn match_covers(m: (usize, usize), tl: int, l: int, idx: int) -> bool {
    m.0 == l && m.1 <= idx < m.1 + tl
}

/// The first match in the list covering `(l, idx)`, scanning from `k`;
/// -1 when none does.
pub open spec fn first_cover_from(
    ms: Seq<(usize, usize)>,
    tl: int,
    l: int,
    idx: int,
    k: int,
) -> int
    decreases ms.len() - k,
        when 0 <= k
{
    if k >= ms.len() {
        -1
    } else if match_covers(ms[k], tl, l, idx) {
        k
    } else {
        first_cover_from(ms, tl, l, idx, k + 1)
    }
}

/// One row of the visible window, ready to paint: the one-based line
/// number (shown only on non-continuation rows), the indent in cells,
/// and the cells with selection and search highlighting already applied.
pub struct VisibleRow {
    pub line_no: usize,
    pub continuation: bool,
    pub indent: usize,
    pub cells: Vec<StyledChar>,
}

impl ScrollbackWidget {
    /// The style a character is painted with: selection highlighting
    /// first, then search highlighting — the current match in its own
    /// style — then the character's own style.
    pub open spec fn style_for_spec(self, l: int, idx: int, base: Style) -> Style {
        if self.selection.contains_spec(l, idx) {
            crate::theme::selected_style_spec()
        } else if self.search_mode != SearchMode::Closed && self.search_term@.len() > 0 {
            let fc = first_cover_from(
                self.search_matches@,
                self.search_term@.len() as int,
                l,
                idx,
                0,
            );
            if fc >= 0 {
                if fc == self.current_match {
                    crate::theme::current_match_style_spec()
                } else {
                    crate::theme::search_highlight_style_spec()
                }
            } else {
                base
            }
        } else {
            base
        }
    }

    /// Applies highlighting precedence to one character.
    #[verifier::loop_isolation(false)]
    pub fn style_for(&self, l: usize, idx: usize, base: Style) -> (r: Style)
        requires
            self.wf(),
        ensures
            r == self.style_for_spec(l as int, idx as int, base),
    {
        if self.selection.contains_position(l, idx) {
            return crate::theme::selected_style();
        }
        if self.search_mode.is_closed() || self.search_term.len() == 0 {
            return base;
        }
        let tl = self.search_term.len();
        let n = self.search_matches.len();
        let ghost ms = self.search_matches@;
        let mut k: usize = 0;
        while k < n
            invariant
                k <= n,
                n == ms.len(),
                ms == self.search_matches@,
                tl == self.search_term@.len(),
                self.wf(),
                first_cover_from(ms, tl as int, l as int, idx as int, 0) == first_cover_from(
                    ms,
                    tl as int,
                    l as int,
                    idx as int,
                    k as int,
                ),
            decreases n - k,
        {
            let m = self.search_matches[k];
            proof {
                assert(is_match_at(
                    self.buffer@[ms[k as int].0 as int]@,
                    self.search_term@,
                    ms[k as int].1 as int,
                ));
            }
            if m.0 == l && m.1 <= idx && idx < m.1 + tl {
                proof {
                    assert(match_covers(ms[k as int], tl as int, l as int, idx as int));
                    assert(first_cover_from(ms, tl as int, l as int, idx as int, k as int)
                        == k as int);
                }
                if k == self.current_match {
                    return crate::theme::current_match_style();
                } else {
                    return crate::theme::search_highlight_style();
                }
            }
            proof {
                assert(!match_covers(ms[k as int], tl as int, l as int, idx as int));
                assert(first_cover_from(ms, tl as int, l as int, idx as int, k as int)
                    == first_cover_from(ms, tl as int, l as int, idx as int, k + 1));
            }
            k = k + 1;
        }
        base
    }
}

impl ScrollbackWidget {
    /// Every entry of a specified wrap table points at a real line and
    /// stays inside it.
    pub proof fn lemma_table_spec_entries(lines: Seq<Seq<StyledChar>>, fw: int, rw: int)
        requires
            fw >= 0,
            rw >= 0,
        ensures
            ({
                let t = table_spec(lines, fw, rw);
                forall|k: int|
                    0 <= k && k < t.len() ==> {
                        &&& 0 <= (#[trigger] t[k]).0 < lines.len()
                        &&& 0 <= t[k].1 <= t[k].2 <= lines[t[k].0].len()
                    }
            }),
        decreases lines.len(),
    {
        if lines.len() > 0 {
            Self::lemma_table_spec_entries(lines.drop_last(), fw, rw);
            crate::wrap::lemma_line_segments_props(lines.last(), fw, rw);
            let t = table_spec(lines, fw, rw);
            let pre = table_spec(lines.drop_last(), fw, rw);
            let segs = crate::wrap::line_segments(lines.last(), fw, rw);
            let tg = tagged(lines.len() - 1, segs);
            assert forall|k: int|
                0 <= k && k < t.len() implies {
                &&& 0 <= (#[trigger] t[k]).0 < lines.len()
                &&& 0 <= t[k].1 <= t[k].2 <= lines[t[k].0].len()
            } by {
                if k < pre.len() {
                    assert(t[k] == pre[k]);
                    assert(lines.drop_last()[pre[k].0] == lines[pre[k].0]);
                } else {
                    assert(t[k] == tg[k - pre.len()]);
                    assert(tg[k - pre.len()] == (
                        lines.len() - 1,
                        segs[k - pre.len()].0,
                        segs[k - pre.len()].1,
                    ));
                }
            }
        }
    }

    /// The dimensionless seq-length form of `lines`.
    pub open spec fn lines_wf_for_table(self) -> bool {
        forall|k: int|
            0 <= k && k < self.wrapped_lines@.len() ==> {
                &&& (#[trigger] self.wrapped_lines@[k]).0 < self.buffer@.len()
                &&& self.wrapped_lines@[k].1 <= self.wrapped_lines@[k].2
                &&& self.wrapped_lines@[k].2 <= self.buffer@[self.wrapped_lines@[k].0 as int]@.len()
            }
    }

    /// A fresh wrap table's entries are valid for the buffer.
    pub proof fn lemma_wrap_fresh_entries(self)
        requires
            self.wrap_lines,
            self.wrap_fresh(),
        ensures
            self.lines_wf_for_table(),
    {
        let cw = self.wrap_content_width_spec();
        let rw = self.rest_width_spec(cw);
        Self::lemma_table_spec_entries(self.lines(), cw, rw);
        let tv = triple_view(self.wrapped_lines@);
        let ts = table_spec(self.lines(), cw, rw);
        assert forall|k: int|
            0 <= k && k < self.wrapped_lines@.len() implies {
            &&& (#[trigger] self.wrapped_lines@[k]).0 < self.buffer@.len()
            &&& self.wrapped_lines@[k].1 <= self.wrapped_lines@[k].2
            &&& self.wrapped_lines@[k].2 <= self.buffer@[self.wrapped_lines@[k].0 as int]@.len()
        } by {
            assert(tv[k] == (
                self.wrapped_lines@[k].0 as int,
                self.wrapped_lines@[k].1 as int,
                self.wrapped_lines@[k].2 as int,
            ));
            assert(ts[k].0 < self.lines().len());
            assert(self.lines()[self.wrapped_lines@[k].0 as int]
                == self.buffer@[self.wrapped_lines@[k].0 as int]@);
        }
    }

    /// Reads one wrap segment: the line it belongs to and its character
    /// range.
    pub fn wrap_segment(&self, i: usize) -> (r: Option<(usize, usize, usize)>)
        ensures
            match r {
                Some(e) => i < self.wrapped_lines@.len() && e == self.wrapped_lines@[i as int],
                None => i >= self.wrapped_lines@.len(),
            },
    {
        if i < self.wrapped_lines.len() {
            Some(self.wrapped_lines[i])
        } else {
            None
        }
    }

    /// How many rows the wrap table currently holds.
    pub fn wrap_row_count(&self) -> (n: usize)
        ensures
            n == self.wrapped_lines@.len(),
    {
        self.wrapped_lines.len()
    }
}



/// Bounds a product by the product of the bounds.
proof fn lemma_mul_bound(a: int, b: int, ca: int, cb: int)
    by (nonlinear_arith)
    requires
        0 <= a <= ca,
        0 <= b <= cb,
    ensures
        a * b <= ca * cb,
{
}

/// A key press, already decoded by the surrounding application.
#[derive(Debug, Clone, Copy, PartialEq, Eq, Structural)]
pub enum Key {
    Char(char),
    F(u8),
    Up,
    Down,
    Left,
    Right,
    PageUp,
    PageDown,
    Home,
    End,
    Esc,
    Enter,
    Other,
}

/// A key event with its modifiers.
#[derive(Debug, Clone, Copy, PartialEq, Eq, Structural)]
pub struct KeyInput {
    pub code: Key,
    pub ctrl: bool,
    pub shift: bool,
}

/// What a pointer event did.
#[derive(Debug, Clone, Copy, PartialEq, Eq, Structural)]
pub enum MouseKind {
    LeftDown,
    LeftDrag,
    LeftUp,
    Moved,
    ScrollDown,
    ScrollUp,
    ScrollLeft,
    ScrollRight,
    Other,
}

/// A pointer event in screen cells.
#[derive(Debug, Clone, Copy, PartialEq, Eq, Structural)]
pub struct MouseInput {
    pub column: u16,
    pub row: u16,
    pub kind: MouseKind,
    pub shift: bool,
}

impl ScrollbackWidget {
    /// The vertical thumb's bounds: an empty thumb when the content
    /// fits or there is no track; else its size is the track scaled by
    /// viewport over content, clamped to [1, track], and its position
    /// scales the offset over the leftover track.
    pub open spec fn v_thumb_spec(self) -> (int, int) {
        let area = self.last_area;
        if area.height < 2 {
            (area.y as int, area.y as int)
        } else {
            let track: int = area.height - 2;
            if self.line_count_spec() <= self.inner_height || track == 0 {
                (area.y + 1, area.y + 1)
            } else {
                let ts = track * self.inner_height / self.line_count_spec();
                let size: int = if ts >= track {
                    track
                } else if ts == 0 {
                    1
                } else {
                    ts
                };
                let range = track - size;
                if range == 0 {
                    (area.y + 1, area.y + 1 + size)
                } else {
                    let sr = self.line_count_spec() - self.inner_height;
                    let pos0 = self.vertical_offset * range / sr;
                    let pos: int = if pos0 >= range {
                        range
                    } else {
                        pos0
                    };
                    (area.y + 1 + pos, area.y + 1 + pos + size)
                }
            }
        }
    }

    /// The vertical thumb's first and one-past-last row. An empty thumb
    /// (equal bounds) means the content fits and no scrollbar shows.
    pub fn get_vertical_thumb_position(&self) -> (r: (u16, u16))
        requires
            self.wf(),
            self.last_area.y as int + self.last_area.height as int <= u16::MAX,
        ensures
            r.0 <= r.1,
            r.0 >= self.last_area.y,
            r.1 as int <= self.last_area.y as int + self.last_area.height as int,
            (r.0 as int, r.1 as int) == self.v_thumb_spec(),
    {
        let area = self.last_area;
        let scrollbar_height: u16 = if area.height >= 2 {
            area.height - 2
        } else {
            0
        };
        if area.height < 2 {
            return (area.y, area.y);
        }
        let content_height = self.line_count();
        let visible_height = self.inner_height;
        if content_height <= visible_height || scrollbar_height == 0 {
            return (area.y + 1, area.y + 1);
        }
        proof {
            lemma_mul_bound(
                scrollbar_height as int,
                visible_height as int,
                65535,
                usize::MAX as int,
            );
        }
        let ts = ((scrollbar_height as u128 * visible_height as u128)
            / content_height as u128) as u128;
        let ts2: u16 = if ts >= scrollbar_height as u128 {
            scrollbar_height
        } else {
            ts as u16
        };
        let thumb_size: u16 = if ts2 == 0 {
            1
        } else {
            ts2
        };
        let scrollbar_range = scrollbar_height - thumb_size;
        if scrollbar_range == 0 {
            return (area.y + 1, area.y + 1 + thumb_size);
        }
        let scroll_range = content_height - visible_height;
        proof {
            lemma_mul_bound(
                self.vertical_offset as int,
                scrollbar_range as int,
                usize::MAX as int,
                65535,
            );
        }
        let tp = (self.vertical_offset as u128 * scrollbar_range as u128) / scroll_range as u128;
        let thumb_pos: u16 = if tp >= scrollbar_range as u128 {
            scrollbar_range
        } else {
            tp as u16
        };
        let thumb_start = area.y + 1 + thumb_pos;
        let thumb_end = thumb_start + thumb_size;
        (thumb_start, thumb_end)
    }

    /// The horizontal thumb's bounds, by the same rule over the widest
    /// line and the viewport width.
    pub open spec fn h_thumb_spec(self) -> (int, int) {
        let area = self.last_area;
        if area.width < 2 {
            (area.x as int, area.x as int)
        } else {
            let track: int = area.width - 2;
            if self.max_line_width <= self.inner_width || track == 0 {
                (area.x + 1, area.x + 1)
            } else {
                let ts = track * self.inner_width / self.max_line_width as int;
                let size: int = if ts >= track {
                    track
                } else if ts == 0 {
                    1
                } else {
                    ts
                };
                let range = track - size;
                if range == 0 {
                    (area.x + 1, area.x + 1 + size)
                } else {
                    let sr = self.max_line_width - self.inner_width;
                    let pos0 = self.horizontal_offset * range / sr;
                    let pos: int = if pos0 >= range {
                        range
                    } else {
                        pos0
                    };
                    (area.x + 1 + pos, area.x + 1 + pos + size)
                }
            }
        }
    }

    /// The horizontal thumb's first and one-past-last column.
    pub fn get_horizontal_thumb_position(&self) -> (r: (u16, u16))
        requires
            self.wf(),
            self.last_area.x as int + self.last_area.width as int <= u16::MAX,
        ensures
            r.0 <= r.1,
            r.0 >= self.last_area.x,
            r.1 as int <= self.last_area.x as int + self.last_area.width as int,
            (r.0 as int, r.1 as int) == self.h_thumb_spec(),
    {
        let area = self.last_area;
        let scrollbar_width: u16 = if area.width >= 2 {
            area.width - 2
        } else {
            0
        };
        if area.width < 2 {
            return (area.x, area.x);
        }
        let content_width = self.max_line_width;
        let visible_width = self.inner_width;
        if content_width <= visible_width || scrollbar_width == 0 {
            return (area.x + 1, area.x + 1);
        }
        proof {
            lemma_mul_bound(scrollbar_width as int, visible_width as int, 65535, usize::MAX as int);
        }
        let ts = ((scrollbar_width as u128 * visible_width as u128) / content_width as u128)
            as u128;
        let ts2: u16 = if ts >= scrollbar_width as u128 {
            scrollbar_width
        } else {
            ts as u16
        };
        let thumb_size: u16 = if ts2 == 0 {
            1
        } else {
            ts2
        };
        let scrollbar_range = scrollbar_width - thumb_size;
        if scrollbar_range == 0 {
            return (area.x + 1, area.x + 1 + thumb_size);
        }
        let scroll_range = content_width - visible_width;
        proof {
            lemma_mul_bound(
                self.horizontal_offset as int,
                scrollbar_range as int,
                usize::MAX as int,
                65535,
            );
        }
        let tp = (self.horizontal_offset as u128 * scrollbar_range as u128)
            / scroll_range as u128;
        let thumb_pos: u16 = if tp >= scrollbar_range as u128 {
            scrollbar_range
        } else {
            tp as u16
        };
        let thumb_start = area.x + 1 + thumb_pos;
        let thumb_end = thumb_start + thumb_size;
        (thumb_start, thumb_end)
    }

    fn is_point_in_vertical_scrollbar(&self, x: u16, y: u16) -> (b: bool)
        requires
            self.wf(),
    {
        if self.line_count() <= self.inner_height {
            return false;
        }
        let area = self.last_area;
        let right = area.x as usize + area.width as usize;
        let scrollbar_x = if right >= 1 {
            right - 1
        } else {
            0
        };
        let scrollbar_top = area.y as usize + 1;
        let bottom = area.y as usize + area.height as usize;
        let scrollbar_bottom = if bottom >= 1 {
            bottom - 1
        } else {
            0
        };
        (x as usize) == scrollbar_x && (y as usize) >= scrollbar_top && (y as usize)
            < scrollbar_bottom
    }

    fn is_point_in_horizontal_scrollbar(&self, x: u16, y: u16) -> (b: bool)
        requires
            self.wf(),
    {
        if self.wrap_lines || self.max_line_width <= self.inner_width {
            return false;
        }
        let area = self.last_area;
        let bottom = area.y as usize + area.height as usize;
        let scrollbar_y = if bottom >= 1 {
            bottom - 1
        } else {
            0
        };
        let scrollbar_left = area.x as usize + 1;
        let right = area.x as usize + area.width as usize;
        let scrollbar_right = if right >= 1 {
            right - 1
        } else {
            0
        };
        (y as usize) == scrollbar_y && (x as usize) >= scrollbar_left && (x as usize)
            < scrollbar_right
    }

    fn is_point_in_vertical_thumb(&self, x: u16, y: u16) -> (b: bool)
        requires
            self.wf(),
            self.last_area.y as int + self.last_area.height as int <= u16::MAX,
    {
        if !self.is_point_in_vertical_scrollbar(x, y) {
            return false;
        }
        let (thumb_start, thumb_end) = self.get_vertical_thumb_position();
        y >= thumb_start && y < thumb_end
    }

    fn is_point_in_horizontal_thumb(&self, x: u16, y: u16) -> (b: bool)
        requires
            self.wf(),
            self.last_area.x as int + self.last_area.width as int <= u16::MAX,
    {
        if !self.is_point_in_horizontal_scrollbar(x, y) {
            return false;
        }
        let (thumb_start, thumb_end) = self.get_horizontal_thumb_position();
        x >= thumb_start && x < thumb_end
    }

    /// A click on the track pages towards the click.
    fn handle_vertical_scrollbar_click(&mut self, y: u16)
        requires
            old(self).wf(),
            old(self).last_area.y as int + old(self).last_area.height as int <= u16::MAX,
        ensures
            final(self).wf(),
    {
        let (thumb_start, thumb_end) = self.get_vertical_thumb_position();
        if y < thumb_start {
            let h = self.inner_height;
            self.scroll_up(h);
        } else if y >= thumb_end {
            let h = self.inner_height;
            self.scroll_down(h);
        }
    }

    fn handle_horizontal_scrollbar_click(&mut self, x: u16)
        requires
            old(self).wf(),
            old(self).last_area.x as int + old(self).last_area.width as int <= u16::MAX,
        ensures
            final(self).wf(),
    {
        let (thumb_start, thumb_end) = self.get_horizontal_thumb_position();
        if x < thumb_start {
            let w = self.inner_width;
            self.scroll_left(w);
        } else if x >= thumb_end {
            let w = self.inner_width;
            self.scroll_right(w);
        }
    }

    /// Dragging the vertical thumb maps the pointer row back to an
    /// offset — the inverse of the thumb formula, with the grab offset
    /// subtracted so the thumb does not jump under the cursor — clamped
    /// to the bottom, and detaches from the tail.
    #[verifier::rlimit(100)]
    #[verifier::spinoff_prover]
    fn handle_vertical_scrollbar_drag(&mut self, y: u16, drag_offset: u16)
        requires
            old(self).wf(),
        ensures
            final(self).wf(),
            *final(self) == (ScrollbackWidget {
                vertical_offset: final(self).vertical_offset,
                auto_scroll: final(self).auto_scroll,
                status: final(self).status,
                redraw_requested: final(self).redraw_requested,
                ..*old(self)
            }),
            ({
                let area = old(self).last_area;
                let track: int = if area.height >= 2 {
                    area.height - 2
                } else {
                    0
                };
                if old(self).line_count_spec() <= old(self).inner_height || track == 0 {
                    *final(self) == *old(self)
                } else {
                    let ts = track * old(self).inner_height / old(self).line_count_spec();
                    let size: int = if ts >= track {
                        track
                    } else if ts == 0 {
                        1
                    } else {
                        ts
                    };
                    let range = track - size;
                    if range == 0 {
                        *final(self) == *old(self)
                    } else {
                        let rel: int = if y >= area.y + 1 {
                            y - (area.y + 1)
                        } else {
                            0
                        };
                        let desired: int = if rel >= drag_offset {
                            rel - drag_offset
                        } else {
                            0
                        };
                        let clamped: int = if desired <= range {
                            desired
                        } else {
                            range
                        };
                        let sr = old(self).line_count_spec() - old(self).inner_height;
                        let no = clamped * sr / range;
                        let target: int = if no <= old(self).max_scroll_spec() {
                            no
                        } else {
                            old(self).max_scroll_spec()
                        };
                        !final(self).auto_scroll && final(self).vertical_offset as int == target
                            && final(self).redraw_requested
                    }
                }
            }),
    {
        let area = self.last_area;
        let scrollbar_height: u16 = if area.height >= 2 {
            area.height - 2
        } else {
            0
        };
        let content_height = self.line_count();
        let visible_height = self.inner_height;
        if content_height <= visible_height || scrollbar_height == 0 {
            return ;
        }
        proof {
            lemma_mul_bound(
                scrollbar_height as int,
                visible_height as int,
                65535,
                usize::MAX as int,
            );
        }
        let ts = ((scrollbar_height as u128 * visible_height as u128)
            / content_height as u128) as u128;
        let ts2: u16 = if ts >= scrollbar_height as u128 {
            scrollbar_height
        } else {
            ts as u16
        };
        let thumb_size: u16 = if ts2 == 0 {
            1
        } else {
            ts2
        };
        let scrollbar_range = scrollbar_height - thumb_size;
        if scrollbar_range == 0 {
            return ;
        }
        let top1 = area.y as usize + 1;
        let mouse_relative_y: usize = if (y as usize) >= top1 {
            y as usize - top1
        } else {
            0
        };
        let desired_thumb_y = if mouse_relative_y >= drag_offset as usize {
            mouse_relative_y - drag_offset as usize
        } else {
            0
        };
        let clamped_thumb_y = if desired_thumb_y <= scrollbar_range as usize {
            desired_thumb_y
        } else {
            scrollbar_range as usize
        };
        let scroll_range = content_height - visible_height;
        proof {
            lemma_mul_bound(clamped_thumb_y as int, scroll_range as int, 65535, usize::MAX as int);
        }
        let new_offset = ((clamped_thumb_y as u128 * scroll_range as u128)
            / scrollbar_range as u128) as u128;
        let new_offset_us: usize = if new_offset >= usize::MAX as u128 {
            usize::MAX
        } else {
            new_offset as usize
        };
        self.set_auto_scroll(false);
        let m = self.max_scroll_position();
        let target = if new_offset_us <= m {
            new_offset_us
        } else {
            m
        };
        self.set_vertical_offset(target);
        self.request_redraw();
    }

    /// Dragging the horizontal thumb, likewise: the inverse mapping
    /// with the grab offset preserved, clamped at the widest line.
    #[verifier::rlimit(100)]
    #[verifier::spinoff_prover]
    fn handle_horizontal_scrollbar_drag(&mut self, x: u16, drag_offset: u16)
        requires
            old(self).wf(),
        ensures
            final(self).wf(),
            *final(self) == (ScrollbackWidget {
                horizontal_offset: final(self).horizontal_offset,
                redraw_requested: final(self).redraw_requested,
                ..*old(self)
            }),
            ({
                let area = old(self).last_area;
                let track: int = if area.width >= 2 {
                    area.width - 2
                } else {
                    0
                };
                if old(self).max_line_width <= old(self).inner_width || track == 0 {
                    *final(self) == *old(self)
                } else {
                    let ts = track * old(self).inner_width / old(self).max_line_width as int;
                    let size: int = if ts >= track {
                        track
                    } else if ts == 0 {
                        1
                    } else {
                        ts
                    };
                    let range = track - size;
                    if range == 0 {
                        *final(self) == *old(self)
                    } else {
                        let rel: int = if x >= area.x + 1 {
                            x - (area.x + 1)
                        } else {
                            0
                        };
                        let desired: int = if rel >= drag_offset {
                            rel - drag_offset
                        } else {
                            0
                        };
                        let clamped: int = if desired <= range {
                            desired
                        } else {
                            range
                        };
                        let sr = old(self).max_line_width - old(self).inner_width;
                        let no = clamped * sr / range;
                        let target: int = if no <= old(self).max_line_width {
                            no
                        } else {
                            old(self).max_line_width as int
                        };
                        final(self).horizontal_offset as int == target && final(self).redraw_requested
                    }
                }
            }),
    {
        let area = self.last_area;
        let scrollbar_width: u16 = if area.width >= 2 {
            area.width - 2
        } else {
            0
        };
        let content_width = self.max_line_width;
        let visible_width = self.inner_width;
        if content_width <= visible_width || scrollbar_width == 0 {
            return ;
        }
        proof {
            lemma_mul_bound(scrollbar_width as int, visible_width as int, 65535, usize::MAX as int);
        }
        let ts = ((scrollbar_width as u128 * visible_width as u128) / content_width as u128)
            as u128;
        let ts2: u16 = if ts >= scrollbar_width as u128 {
            scrollbar_width
        } else {
            ts as u16
        };
        let thumb_size: u16 = if ts2 == 0 {
            1
        } else {
            ts2
        };
        let scrollbar_range = scrollbar_width - thumb_size;
        if scrollbar_range == 0 {
            return ;
        }
        let left1 = area.x as usize + 1;
        let mouse_relative_x: usize = if (x as usize) >= left1 {
            x as usize - left1
        } else {
            0
        };
        let desired_thumb_x = if mouse_relative_x >= drag_offset as usize {
            mouse_relative_x - drag_offset as usize
        } else {
            0
        };
        let clamped_thumb_x = if desired_thumb_x <= scrollbar_range as usize {
            desired_thumb_x
        } else {
            scrollbar_range as usize
        };
        let scroll_range = content_width - visible_width;
        proof {
            lemma_mul_bound(clamped_thumb_x as int, scroll_range as int, 65535, usize::MAX as int);
        }
        let new_offset = ((clamped_thumb_x as u128 * scroll_range as u128)
            / scrollbar_range as u128) as u128;
        let new_offset_us: usize = if new_offset >= usize::MAX as u128 {
            usize::MAX
        } else {
            new_offset as usize
        };
        self.horizontal_offset = if new_offset_us <= self.max_line_width {
            new_offset_us
        } else {
            self.max_line_width
        };
        self.request_redraw();
    }
}


impl ScrollbackWidget {
    /// What one key event does: which keys are consumed, and for each
    /// consumed key the state it leaves behind. While the search box
    /// has input focus only Escape and Enter are handled here;
    /// printable input belongs to the application's input box, which
    /// reports the new term through `set_search_term`.
    pub open spec fn key_effect_spec(
        pre: ScrollbackWidget,
        post: ScrollbackWidget,
        key: KeyInput,
        now_ms: u64,
        handled: bool,
    ) -> bool {
        if pre.search_mode == SearchMode::Input {
            match key.code {
                Key::Esc => handled && (if key.ctrl {
                    post.search_mode == SearchMode::Closed
                } else {
                    post.search_mode == SearchMode::Open
                }),
                Key::Enter => handled && (if pre.search_term@.len() == 0 {
                    post.search_mode == SearchMode::Closed
                } else {
                    post.search_mode == SearchMode::Open
                }),
                _ => !handled && post == pre,
            }
        } else {
            match key.code {
                Key::Char(c) => {
                    if c == 'c' && key.ctrl {
                        let copied = pre.selection.active && pre.selected_text_spec().len() > 0;
                        &&& handled
                        &&& (copied ==> (match post.pending_copy {
                            Some(t) => t@ == pre.selected_text_spec(),
                            None => false,
                        }) && !post.selection.active)
                        &&& (!copied ==> post.pending_copy == pre.pending_copy
                            && post.selection == pre.selection)
                    } else if c == 'a' && key.ctrl {
                        &&& handled
                        &&& (pre.buffer@.len() == 0 ==> post == pre)
                        &&& (pre.buffer@.len() > 0 ==> post.selection.active
                            && post.selection.start.line == 0 && post.selection.start.char_idx == 0
                            && post.selection.end.line == pre.buffer@.len() - 1
                            && post.selection.end.char_idx == pre.buffer@[pre.buffer@.len()
                            - 1]@.len())
                    } else if c == '/' && pre.search_mode == SearchMode::Closed {
                        handled && post.search_mode == SearchMode::Input
                    } else if c == '/' && pre.search_mode == SearchMode::Open {
                        handled && post.search_mode == SearchMode::Input
                    } else if c == 'n' && pre.search_mode == SearchMode::Open {
                        &&& handled
                        &&& (pre.search_matches@.len() == 0 ==> post == pre)
                        &&& (pre.search_matches@.len() > 0 ==> post.current_match as int == ((
                        pre.current_match as int % pre.search_matches@.len() as int) + 1)
                            % pre.search_matches@.len() as int && !post.auto_scroll)
                    } else if c == 'N' && pre.search_mode == SearchMode::Open {
                        &&& handled
                        &&& (pre.search_matches@.len() == 0 ==> post == pre)
                        &&& (pre.search_matches@.len() > 0 ==> post.current_match as int == (if
                        pre.current_match == 0 {
                            pre.search_matches@.len() - 1
                        } else {
                            pre.current_match - 1
                        }) && (post.current_match < pre.search_matches@.len()
                            ==> !post.auto_scroll))
                    } else if c == 'g' {
                        &&& handled
                        &&& (pre.waiting_for_g && now_ms >= pre.last_g_press_ms && now_ms
                            - pre.last_g_press_ms < 1000 ==> post.vertical_offset == 0
                            && !post.waiting_for_g)
                        &&& (!(pre.waiting_for_g && now_ms >= pre.last_g_press_ms && now_ms
                            - pre.last_g_press_ms < 1000) ==> post.waiting_for_g
                            && post.last_g_press_ms == now_ms)
                    } else if c == 'G' {
                        handled && post.vertical_offset as int == pre.max_scroll_spec()
                            && post.auto_scroll == (pre.auto_scroll || pre.vertical_offset
                            != pre.max_scroll_spec())
                    } else {
                        !handled && post == pre
                    }
                },
                Key::Esc => handled && (if pre.search_mode == SearchMode::Open {
                    post.search_term@.len() == 0 && post.search_matches@.len() == 0
                        && post.search_mode == SearchMode::Closed
                } else if pre.selection.active {
                    !post.selection.active
                } else {
                    post == pre
                }),
                Key::Up => handled && post.vertical_offset as int == (if pre.vertical_offset >= 1 {
                    pre.vertical_offset - 1
                } else {
                    0int
                }),
                Key::Down => handled && post.vertical_offset as int == (if pre.vertical_offset + 1
                    > pre.max_scroll_spec() {
                    pre.max_scroll_spec()
                } else {
                    pre.vertical_offset + 1
                }),
                Key::PageUp => handled && post.vertical_offset as int == (if pre.vertical_offset
                    >= pre.inner_height {
                    pre.vertical_offset - pre.inner_height
                } else {
                    0int
                }),
                Key::PageDown => handled && post.vertical_offset as int == (if
                pre.vertical_offset + pre.inner_height > pre.max_scroll_spec() {
                    pre.max_scroll_spec()
                } else {
                    pre.vertical_offset + pre.inner_height
                }),
                Key::Home => handled && post.vertical_offset == 0 && (pre.vertical_offset != 0
                    ==> !post.auto_scroll),
                Key::End => handled && post.vertical_offset as int == pre.max_scroll_spec()
                    && post.auto_scroll == (pre.auto_scroll || pre.vertical_offset
                    != pre.max_scroll_spec()),
                Key::Left => {
                    let off: int = if key.ctrl {
                        pre.inner_width as int
                    } else {
                        1
                    };
                    handled && post.horizontal_offset as int == (if pre.horizontal_offset >= off {
                        pre.horizontal_offset - off
                    } else {
                        0int
                    })
                },
                Key::Right => {
                    let off: int = if key.ctrl {
                        pre.inner_width as int
                    } else {
                        1
                    };
                    handled && post.horizontal_offset as int == (if pre.horizontal_offset + off
                        > pre.h_scroll_bound_spec() {
                        pre.h_scroll_bound_spec()
                    } else {
                        pre.horizontal_offset + off
                    })
                },
                Key::F(n) => {
                    if n == 12 {
                        handled && post.dev_mode == !pre.dev_mode && post.redraw_requested
                    } else if n == 11 {
                        handled && post.wrap_lines == !pre.wrap_lines
                    } else if n == 10 {
                        handled && post.show_line_numbers == !pre.show_line_numbers
                            && post.redraw_requested
                    } else if n == 9 {
                        handled && post.redraw_requested
                    } else {
                        !handled && post == pre
                    }
                },
                _ => !handled && post == pre,
            }
        }
    }

    /// Handles one key event, reporting whether it was consumed, with
    /// the per-key outcome given by `key_effect_spec`.
    pub fn key_event(&mut self, key: KeyInput, now_ms: u64) -> (handled: bool)
        requires
            old(self).wf(),
        ensures
            final(self).wf(),
            Self::key_effect_spec(*old(self), *final(self), key, now_ms, handled),
    {
        if self.search_mode.has_focus() {
            self.key_event_search(key, now_ms)
        } else {
            self.key_event_normal(key, now_ms)
        }
    }

    /// The search box has input focus: Escape leaves or closes it,
    /// Enter confirms; everything else belongs to the input box.
    fn key_event_search(&mut self, key: KeyInput, now_ms: u64) -> (handled: bool)
        requires
            old(self).wf(),
            old(self).search_mode == SearchMode::Input,
        ensures
            final(self).wf(),
            Self::key_effect_spec(*old(self), *final(self), key, now_ms, handled),
    {
        match key.code {
            Key::Esc => {
                if key.ctrl {
                    self.close_search();
                } else {
                    self.unfocus_search();
                }
                true
            },
            Key::Enter => {
                if self.search_term.len() == 0 {
                    self.close_search();
                } else {
                    self.unfocus_search();
                }
                true
            },
            _ => false,
        }
    }

    /// Character keys of the normal mode: copy, select-all, search
    /// open/focus and navigation, and the vim-style jumps.
    #[verifier::rlimit(100)]
    #[verifier::spinoff_prover]
    fn key_event_char(&mut self, key: KeyInput, c: char, now_ms: u64) -> (handled: bool)
        requires
            old(self).wf(),
            old(self).search_mode != SearchMode::Input,
            key.code == Key::Char(c),
        ensures
            final(self).wf(),
            Self::key_effect_spec(*old(self), *final(self), key, now_ms, handled),
    {
        if c == 'c' && key.ctrl {
            if self.copy_selection() {
                self.drag_scroll_to_selection_bounds();
                self.clear_selection();
            }
            true
        } else if c == 'a' && key.ctrl {
            self.select_all();
            true
        } else if c == '/' && self.search_mode.is_closed() {
            self.open_search();
            true
        } else if c == '/' && self.search_mode == SearchMode::Open {
            self.focus_search();
            true
        } else if c == 'n' && self.search_mode == SearchMode::Open {
            self.jump_to_next_match();
            true
        } else if c == 'N' && self.search_mode == SearchMode::Open {
            self.jump_to_prev_match();
            true
        } else if c == 'g' {
            if self.waiting_for_g && now_ms >= self.last_g_press_ms && now_ms
                - self.last_g_press_ms < 1000 {
                self.scroll_to_top();
                self.waiting_for_g = false;
            } else {
                self.waiting_for_g = true;
                self.last_g_press_ms = now_ms;
            }
            true
        } else if c == 'G' {
            self.scroll_to_bottom();
            true
        } else {
            false
        }
    }

    /// The remaining normal-mode keys: scrolling, paging, the jumps to
    /// either end, and the function-key toggles.
    #[verifier::rlimit(100)]
    #[verifier::spinoff_prover]
    fn key_event_normal(&mut self, key: KeyInput, now_ms: u64) -> (handled: bool)
        requires
            old(self).wf(),
            old(self).search_mode != SearchMode::Input,
        ensures
            final(self).wf(),
            Self::key_effect_spec(*old(self), *final(self), key, now_ms, handled),
    {
        match key.code {
            Key::Char(c) => self.key_event_char(key, c, now_ms),
            Key::Esc => {
                if self.search_mode == SearchMode::Open {
                    self.clear_search();
                    true
                } else if self.selection.is_active() {
                    self.clear_selection();
                    self.recalculate_status();
                    true
                } else {
                    true
                }
            },
            Key::Up => {
                self.scroll_up(1);
                true
            },
            Key::Down => {
                self.scroll_down(1);
                true
            },
            Key::PageUp => {
                let h = self.inner_height;
                self.scroll_up(h);
                true
            },
            Key::PageDown => {
                let h = self.inner_height;
                self.scroll_down(h);
                true
            },
            Key::Home => {
                self.scroll_to_top();
                true
            },
            Key::End => {
                self.scroll_to_bottom();
                true
            },
            Key::Left => {
                let off = if key.ctrl {
                    self.inner_width
                } else {
                    1
                };
                self.scroll_left(off);
                true
            },
            Key::Right => {
                let off = if key.ctrl {
                    self.inner_width
                } else {
                    1
                };
                self.scroll_right(off);
                true
            },
            Key::F(12) => {
                self.dev_mode = !self.dev_mode;
                self.request_redraw();
                true
            },
            Key::F(11) => {
                let w = !self.wrap_lines;
                self.set_wrap_lines(w);
                true
            },
            Key::F(10) => {
                self.show_line_numbers = !self.show_line_numbers;
                self.request_redraw();
                true
            },
            Key::F(9) => {
                self.request_redraw();
                true
            },
            _ => false,
        }
    }

    /// Handles one pointer event, reporting whether it was consumed:
    /// presses and drags drive selection or a scrollbar thumb, the wheel
    /// scrolls, and plain movement only updates the cursor shape.
    pub fn mouse_event(&mut self, m: MouseInput, now_ms: u64) -> (handled: bool)
        requires
            old(self).wf(),
            old(self).last_area.x as int + old(self).last_area.width as int <= u16::MAX,
            old(self).last_area.y as int + old(self).last_area.height as int <= u16::MAX,
        ensures
            final(self).wf(),
    {
        self.last_mouse_pos = Some((m.column, m.row));
        match m.kind {
            MouseKind::LeftDown => {
                if self.is_point_in_vertical_scrollbar(m.column, m.row) {
                    if self.is_point_in_vertical_thumb(m.column, m.row) {
                        let (thumb_start, _) = self.get_vertical_thumb_position();
                        let drag_offset = if m.row >= thumb_start {
                            m.row - thumb_start
                        } else {
                            0
                        };
                        self.scrollbar_drag = ScrollbarDrag::Vertical(drag_offset);
                    } else {
                        self.handle_vertical_scrollbar_click(m.row);
                    }
                    return true;
                }
                if self.is_point_in_horizontal_scrollbar(m.column, m.row) {
                    if self.is_point_in_horizontal_thumb(m.column, m.row) {
                        let (thumb_start, _) = self.get_horizontal_thumb_position();
                        let drag_offset = if m.column >= thumb_start {
                            m.column - thumb_start
                        } else {
                            0
                        };
                        self.scrollbar_drag = ScrollbarDrag::Horizontal(drag_offset);
                    } else {
                        self.handle_horizontal_scrollbar_click(m.column);
                    }
                    return true;
                }
                if !m.shift {
                    self.clear_selection();
                }
                if self.last_area.x < u16::MAX && self.last_area.y < u16::MAX {
                    self.handle_mouse_press(m.column, m.row);
                }
                true
            },
            MouseKind::LeftDrag => {
                match self.scrollbar_drag {
                    ScrollbarDrag::Vertical(drag_offset) => {
                        self.handle_vertical_scrollbar_drag(m.row, drag_offset);
                        true
                    },
                    ScrollbarDrag::Horizontal(drag_offset) => {
                        self.handle_horizontal_scrollbar_drag(m.column, drag_offset);
                        true
                    },
                    ScrollbarDrag::Idle => {
                        if self.last_area.x < u16::MAX && self.last_area.y < u16::MAX {
                            self.handle_mouse_drag(m.column, m.row, now_ms);
                        }
                        true
                    },
                }
            },
            MouseKind::LeftUp => {
                self.scrollbar_drag = ScrollbarDrag::Idle;
                self.handle_mouse_release();
                true
            },
            MouseKind::Moved => {
                if self.last_area.x < u16::MAX && self.last_area.y < u16::MAX {
                    let cursor_changed = self.update_cursor_state(m.column, m.row);
                    let point_in_thumb = self.is_point_in_vertical_thumb(m.column, m.row)
                        || self.is_point_in_horizontal_thumb(m.column, m.row);
                    if point_in_thumb && self.cursor_state != CursorState::Selecting {
                        self.cursor_state = CursorState::Text;
                    }
                    cursor_changed
                } else {
                    false
                }
            },
            MouseKind::ScrollDown => {
                self.scroll_down(1);
                true
            },
            MouseKind::ScrollUp => {
                self.scroll_up(1);
                true
            },
            MouseKind::ScrollLeft => {
                self.scroll_left(1);
                true
            },
            MouseKind::ScrollRight => {
                self.scroll_right(1);
                true
            },
            MouseKind::Other => false,
        }
    }

    /// Starts a frame: performs any pending drag-scroll step against
    /// the clock, keeps the dragged selection tracking, adopts the new
    /// area, refreshes the wrap table and, while tail-following, pins
    /// the viewport to the bottom. Returns whether the area changed and
    /// the surface needs a full clear.
    #[verifier::rlimit(100)]
    pub fn begin_frame(&mut self, area: Rect, now_ms: u64) -> (full_clear: bool)
        requires
            old(self).wf(),
            area.x < u16::MAX,
            area.y < u16::MAX,
        ensures
            final(self).wf(),
            final(self).wrap_fresh(),
            full_clear == (area != old(self).last_area),
            final(self).last_area == area,
            final(self).auto_scroll ==> final(self).vertical_offset as int == final(self).max_scroll_spec(),
    {
        if self.is_drag_scrolling() {
            self.perform_drag_scroll(now_ms);
            if self.last_area.x < u16::MAX && self.last_area.y < u16::MAX {
                if let Some((x, y)) = self.last_mouse_pos {
                    let pos = self.screen_to_buffer_position(x, y);
                    if let Some((line_idx, char_idx)) = pos {
                        self.selection.update_end(line_idx, char_idx);
                        self.last_mouse_in_bounds = true;
                    }
                }
            }
        }
        let full_clear = area != self.last_area;
        self.last_area = area;
        let inner = area.inner();
        let mut content_h = inner.height as usize;
        if self.search_mode.is_active() && content_h > 1 {
            content_h = content_h - 2;
        }
        self.inner_width = inner.width as usize;
        if self.inner_height != content_h {
            self.inner_height = content_h;
            self.check_and_auto_scroll();
        }
        self.ensure_wrap_table();
        self.check_and_auto_scroll();
        full_clear
    }

    /// Ends a frame: the widget has been painted and is clean.
    pub fn end_frame(&mut self)
        requires
            old(self).wf(),
        ensures
            final(self).wf(),
            *final(self) == (ScrollbackWidget { redraw_requested: false, ..*old(self) }),
    {
        self.redraw_requested = false;
    }

    pub fn focus(&mut self)
        requires
            old(self).wf(),
        ensures
            final(self).wf(),
            final(self).is_focused,
    {
        self.apply_focus(true);
    }

    pub fn unfocus(&mut self)
        requires
            old(self).wf(),
        ensures
            final(self).wf(),
            !final(self).is_focused,
    {
        self.apply_focus(false);
    }

    pub fn is_focused(&self) -> (b: bool)
        ensures
            b == self.is_focused,
    {
        self.is_focused
    }

    /// Applies a focus change: the border colour follows focus, the
    /// cursor resets on focus loss, and a change marks the widget dirty.
    fn apply_focus(&mut self, focused: bool)
        requires
            old(self).wf(),
        ensures
            final(self).wf(),
            final(self).is_focused == focused,
            old(self).is_focused == focused ==> *final(self) == *old(self),
    {
        if self.is_focused != focused {
            self.is_focused = focused;
            if !focused {
                self.reset_cursor();
            }
            self.border_color = if focused {
                crate::theme::border_focused()
            } else {
                crate::theme::border_default()
            };
            self.request_redraw();
        }
    }
}

} // verus!
