//! Status-line plumbing: line identities, cell visibility, update
//! messages and the time-driven status cells, modelled on a
//! milliseconds clock supplied by the caller.

use vstd::prelude::*;

verus! {

/// Identifies one status line.
#[derive(Debug, Hash, Clone, Copy, PartialEq, Eq, Structural)]
pub struct StatusLineId(pub u64);

/// Allocates unique status-line identifiers; owned by the one
/// container that needs uniqueness, and deliberately not clonable — a
/// copy would hand out duplicate identifiers.
#[derive(Debug)]
pub struct LineCounter {
    pub next_id: u64,
}

impl LineCounter {
    pub fn new() -> (r: LineCounter)
        ensures
            r.next_id == 9,
    {
        LineCounter { next_id: 9 }
    }

    /// Hands out the next identifier.
    pub fn next(&mut self) -> (r: StatusLineId)
        requires
            old(self).next_id < u64::MAX,
        ensures
            r == StatusLineId(old(self).next_id),
            final(self).next_id == old(self).next_id + 1,
    {
        let id = StatusLineId(self.next_id);
        self.next_id = self.next_id + 1;
        id
    }
}

/// Which cells of which lines are visible; unset cells default to
/// visible.
#[derive(Debug, Clone)]
pub struct CellVisibility {
    pub entries: Vec<(u64, usize, bool)>,
}

impl CellVisibility {
    /// The recorded visibility of a cell in an entry list, if any entry
    /// names it; the latest entry wins.
    pub open spec fn lookup_seq(entries: Seq<(u64, usize, bool)>, line: u64, cell: int) -> Option<
        bool,
    >
        decreases entries.len(),
    {
        if entries.len() == 0 {
            None
        } else if entries.last().0 == line && entries.last().1 == cell {
            Some(entries.last().2)
        } else {
            Self::lookup_seq(entries.drop_last(), line, cell)
        }
    }

    /// The recorded visibility of a cell, if any entry names it.
    pub open spec fn lookup(self, line: u64, cell: int) -> Option<bool> {
        Self::lookup_seq(self.entries@, line, cell)
    }

    /// Whether a cell shows: its latest recorded setting, or visible by
    /// default.
    pub open spec fn visible_spec(self, line: u64, cell: int) -> bool {
        match self.lookup(line, cell) {
            Some(b) => b,
            None => true,
        }
    }

    pub fn new() -> (r: CellVisibility)
        ensures
            r.entries@.len() == 0,
    {
        CellVisibility { entries: Vec::new() }
    }

    pub fn set_visibility(&mut self, line_id: StatusLineId, cell_id: usize, visible: bool)
        ensures
            final(self).visible_spec(line_id.0, cell_id as int) == visible,
            forall|l: u64, c: int|
                !(l == line_id.0 && c == cell_id as int) ==> final(self).visible_spec(l, c) == old(
                    self,
                ).visible_spec(l, c),
    {
        self.entries.push((line_id.0, cell_id, visible));
        proof {
            assert(self.entries@.drop_last() =~= old(self).entries@);
        }
    }

    pub fn set_visibility_by_index(&mut self, line_id: StatusLineId, index: usize, visible: bool)
        ensures
            final(self).visible_spec(line_id.0, index as int) == visible,
            forall|l: u64, c: int|
                !(l == line_id.0 && c == index as int) ==> final(self).visible_spec(l, c) == old(
                    self,
                ).visible_spec(l, c),
    {
        self.set_visibility(line_id, index, visible);
    }

    pub fn is_visible(&self, line_id: StatusLineId, cell_id: usize) -> (b: bool)
        ensures
            b == self.visible_spec(line_id.0, cell_id as int),
    {
        let n = self.entries.len();
        proof {
            assert(self.entries@.take(n as int) =~= self.entries@);
        }
        let mut k = n;
        while k > 0
            invariant
                k <= n,
                n == self.entries@.len(),
                Self::lookup_seq(self.entries@.take(k as int), line_id.0, cell_id as int)
                    == self.lookup(line_id.0, cell_id as int),
            decreases k,
        {
            proof {
                assert(self.entries@.take(k as int).drop_last() =~= self.entries@.take(k - 1));
                assert(self.entries@.take(k as int).last() == self.entries@[k - 1]);
            }
            k = k - 1;
            let e = self.entries[k];
            if e.0 == line_id.0 && e.1 == cell_id {
                return e.2;
            }
        }
        proof {
            assert(self.entries@.take(0) =~= Seq::<(u64, usize, bool)>::empty());
        }
        true
    }

    pub fn is_visible_by_index(&self, line_id: StatusLineId, index: usize) -> (b: bool)
        ensures
            b == self.visible_spec(line_id.0, index as int),
    {
        self.is_visible(line_id, index)
    }

    pub fn toggle_cell_visibility(&mut self, line_id: StatusLineId, cell_id: usize)
        ensures
            final(self).visible_spec(line_id.0, cell_id as int) == !old(self).visible_spec(
                line_id.0,
                cell_id as int,
            ),
            forall|l: u64, c: int|
                !(l == line_id.0 && c == cell_id as int) ==> final(self).visible_spec(l, c) == old(
                    self,
                ).visible_spec(l, c),
    {
        let current = self.is_visible(line_id, cell_id);
        self.set_visibility(line_id, cell_id, !current);
    }

    pub fn toggle_cell_visibility_by_index(&mut self, line_id: StatusLineId, index: usize)
        ensures
            final(self).visible_spec(line_id.0, index as int) == !old(self).visible_spec(
                line_id.0,
                index as int,
            ),
            forall|l: u64, c: int|
                !(l == line_id.0 && c == index as int) ==> final(self).visible_spec(l, c) == old(
                    self,
                ).visible_spec(l, c),
    {
        let current = self.is_visible_by_index(line_id, index);
        self.set_visibility_by_index(line_id, index, !current);
    }
}

/// A mutation of one cell of one status line, as an inspectable message
/// rather than a boxed callback.
#[derive(Debug, Clone, PartialEq)]
pub struct StatusCellUpdate {
    pub line_id: StatusLineId,
    pub cell_id: usize,
    pub payload: CellPayload,
}

/// What a cell update carries.
#[derive(Debug, Clone, PartialEq)]
pub enum CellPayload {
    SetText(String),
    SetProgress(u64, u64),
    ResetTimer,
    SetVisible(bool),
}

/// An update addressed to a status line.
#[derive(Debug, Clone, PartialEq)]
pub enum StatusUpdate {
    CellUpdate(StatusCellUpdate),
    LineVisibility { line_id: StatusLineId, visible: bool },
}

/// A reference to a status line by its identifier.
#[derive(Clone, Copy, Debug)]
pub struct StatusLineRef(pub StatusLineId);

impl StatusLineRef {
    pub fn new(id: StatusLineId) -> (r: StatusLineRef)
        ensures
            r.0 == id,
    {
        StatusLineRef(id)
    }
}

/// What every status line offers: its identity, and show and hide
/// messages built from it.
pub trait StatusLine {
    fn status_line_ref(&self) -> StatusLineRef;

    fn show(&self) -> StatusUpdate {
        StatusUpdate::LineVisibility { line_id: self.status_line_ref().0, visible: true }
    }

    fn conceal(&self) -> StatusUpdate {
        StatusUpdate::LineVisibility { line_id: self.status_line_ref().0, visible: false }
    }
}

impl StatusLine for StatusLineRef {
    fn status_line_ref(&self) -> StatusLineRef {
        *self
    }
}

/// Anything that flattens into a batch of status updates.
pub trait IntoStatusUpdates {
    fn into_status_updates(self) -> Vec<StatusUpdate>;
}

impl IntoStatusUpdates for StatusUpdate {
    fn into_status_updates(self) -> Vec<StatusUpdate> {
        let mut v = Vec::new();
        v.push(self);
        v
    }
}

impl IntoStatusUpdates for StatusCellUpdate {
    fn into_status_updates(self) -> Vec<StatusUpdate> {
        let mut v = Vec::new();
        v.push(StatusUpdate::CellUpdate(self));
        v
    }
}

impl IntoStatusUpdates for Vec<StatusUpdate> {
    fn into_status_updates(self) -> Vec<StatusUpdate> {
        self
    }
}

/// A timer cell counts up from a start instant or down to an end
/// instant, both in caller-supplied monotonic milliseconds.
#[derive(Debug, Clone, Copy, PartialEq, Eq, Structural)]
pub enum TimerMode {
    CountUp { start_ms: u64 },
    CountDown { end_ms: u64 },
}

impl TimerMode {
    /// The duration to display: elapsed for a count-up, remaining for a
    /// count-down, never negative.
    pub open spec fn duration_spec(self, now_ms: u64) -> int {
        match self {
            TimerMode::CountUp { start_ms } => if now_ms >= start_ms {
                now_ms - start_ms
            } else {
                0
            },
            TimerMode::CountDown { end_ms } => if end_ms >= now_ms {
                end_ms - now_ms
            } else {
                0
            },
        }
    }

    pub fn duration(&self, now_ms: u64) -> (d: u64)
        ensures
            d == self.duration_spec(now_ms),
    {
        match *self {
            TimerMode::CountUp { start_ms } => if now_ms >= start_ms {
                now_ms - start_ms
            } else {
                0
            },
            TimerMode::CountDown { end_ms } => if end_ms >= now_ms {
                end_ms - now_ms
            } else {
                0
            },
        }
    }

    /// Restarts the mode from the given instant, keeping its kind.
    pub fn reset(&mut self, now_ms: u64)
        ensures
            *final(self) == match *old(self) {
                TimerMode::CountUp { .. } => TimerMode::CountUp { start_ms: now_ms },
                TimerMode::CountDown { .. } => TimerMode::CountDown { end_ms: now_ms },
            },
    {
        *self = match *self {
            TimerMode::CountUp { .. } => TimerMode::CountUp { start_ms: now_ms },
            TimerMode::CountDown { .. } => TimerMode::CountDown { end_ms: now_ms },
        };
    }
}

/// A status cell showing elapsed or remaining time; display values are
/// recomputed at most once a second.
#[derive(Debug, Clone, Copy, PartialEq, Eq, Structural)]
pub struct TimerStatus {
    pub mode: TimerMode,
    pub needs_redraw: bool,
    pub last_hours: u64,
    pub last_minutes: u64,
    pub last_seconds: u64,
    pub last_update_ms: u64,
}

impl TimerStatus {
    /// A count-up timer starting now.
    pub fn new_count_up(now_ms: u64) -> (r: TimerStatus)
        ensures
            r.mode == (TimerMode::CountUp { start_ms: now_ms }),
            r.needs_redraw,
    {
        TimerStatus {
            mode: TimerMode::CountUp { start_ms: now_ms },
            needs_redraw: true,
            last_hours: 0,
            last_minutes: 0,
            last_seconds: 0,
            last_update_ms: now_ms,
        }
    }

    /// A count-down timer ending at `end_ms`.
    pub fn new_count_down(end_ms: u64, now_ms: u64) -> (r: TimerStatus)
        ensures
            r.mode == (TimerMode::CountDown { end_ms }),
            r.needs_redraw,
    {
        TimerStatus {
            mode: TimerMode::CountDown { end_ms },
            needs_redraw: true,
            last_hours: 0,
            last_minutes: 0,
            last_seconds: 0,
            last_update_ms: now_ms,
        }
    }

    /// A count-down timer running for `duration_ms` from now.
    pub fn new_count_down_from(duration_ms: u64, now_ms: u64) -> (r: TimerStatus)
        requires
            now_ms + duration_ms <= u64::MAX,
        ensures
            r.mode == (TimerMode::CountDown { end_ms: (now_ms + duration_ms) as u64 }),
            r.needs_redraw,
    {
        Self::new_count_down(now_ms + duration_ms, now_ms)
    }

    /// Refreshes the displayed hours, minutes and seconds, at most once
    /// a second; flags a redraw exactly when the text would change.
    pub fn preprocess(&mut self, now_ms: u64)
        ensures
            final(self).mode == old(self).mode,
            now_ms >= old(self).last_update_ms + 1000 ==> {
                let secs = old(self).mode.duration_spec(now_ms) / 1000;
                &&& final(self).last_hours == secs / 3600
                &&& final(self).last_minutes == (secs % 3600) / 60
                &&& final(self).last_seconds == secs % 60
                &&& final(self).last_update_ms == now_ms
            },
            now_ms < old(self).last_update_ms + 1000 ==> *final(self) == *old(self),
    {
        if now_ms < self.last_update_ms || now_ms - self.last_update_ms < 1000 {
            return ;
        }
        let secs = self.mode.duration(now_ms) / 1000;
        let h = secs / 3600;
        let m = (secs % 3600) / 60;
        let sec = secs % 60;
        if h != self.last_hours || m != self.last_minutes || sec != self.last_seconds {
            self.needs_redraw = true;
        }
        self.last_hours = h;
        self.last_minutes = m;
        self.last_seconds = sec;
        self.last_update_ms = now_ms;
    }
}

/// A status cell showing `current/total` in megabytes, refreshed at most
/// twice a second.
#[derive(Debug, Clone, Copy, PartialEq, Eq, Structural)]
pub struct FileSizeStatus {
    pub current: u64,
    pub total: u64,
    pub needs_redraw: bool,
    pub last_current_mb: u64,
    pub last_total_mb: u64,
    pub last_update_ms: u64,
}

impl FileSizeStatus {
    pub fn new(current: u64, total: u64) -> (r: FileSizeStatus)
        ensures
            r.current == current,
            r.total == total,
    {
        FileSizeStatus {
            current,
            total,
            needs_redraw: true,
            last_current_mb: 0,
            last_total_mb: 0,
            last_update_ms: 0,
        }
    }

    /// Refreshes the displayed megabyte figures, at most twice a second.
    pub fn preprocess(&mut self, now_ms: u64)
        ensures
            final(self).current == old(self).current,
            final(self).total == old(self).total,
            now_ms >= old(self).last_update_ms + 500 ==> {
                &&& final(self).last_current_mb == old(self).current / 1000000
                &&& final(self).last_total_mb == old(self).total / 1000000
                &&& final(self).last_update_ms == now_ms
            },
    {
        if now_ms < self.last_update_ms || now_ms - self.last_update_ms < 500 {
            return ;
        }
        let c = self.current / 1_000_000;
        let t = self.total / 1_000_000;
        if c != self.last_current_mb || t != self.last_total_mb {
            self.needs_redraw = true;
        }
        self.last_current_mb = c;
        self.last_total_mb = t;
        self.last_update_ms = now_ms;
    }
}

/// The animation style of an icon cell.
#[derive(Debug, Clone, Copy, PartialEq, Eq, Structural)]
pub enum IconMode {
    Spinner,
    Download,
    Pulsate,
    Check,
    Cross,
    Pause,
    Wait,
    Exclamation,
    Question,
    Cancel,
    Alert,
}

/// How an over-long text cell is shortened.
#[derive(Clone, Debug, PartialEq, Eq, Copy, Structural)]
pub enum ClipMode {
    Truncate,
    EllipsisEnd(usize),
}

/// Where a text cell's content sits.
#[derive(Clone, Debug, PartialEq, Eq, Copy, Structural)]
pub enum TextAlignment {
    Left,
    Right,
}

} // verus!
