//! Geometry of the corner-anchored widget on the primary display: the
//! derived hidden and peek positions and the corner trigger-zone test.
//!
//! All coordinates are absolute screen coordinates in whole pixels. A
//! hidden widget sits mostly off the bottom-right edge; a visible one is
//! anchored fully on screen in the same corner.

use vstd::prelude::*;

verus! {

/// Edge length of the (square) widget window.
pub const WIDGET_SIZE: i64 = 500;

/// How much of the widget's edge stays on screen while it is hidden.
pub const HIDE_OFFSET: i64 = 100;

/// Side of the square corner trigger zone.
pub const CORNER_ZONE: i64 = 300;

/// Poll period of the monitor loop, in milliseconds.
pub const POLL_INTERVAL_MS: u64 = 50;

/// Largest display edge the geometry accepts: a physical display dimension
/// is reported in 32 bits.
pub const MAX_DISPLAY_EDGE: i64 = 4294967295;

/// Top-left coordinate that leaves `HIDE_OFFSET` pixels of the widget on a
/// display whose far edge is at `edge`.
pub open spec fn hidden_coord(edge: int) -> int {
    edge - (WIDGET_SIZE - HIDE_OFFSET)
}

/// Top-left coordinate that shows the whole widget against the far edge at
/// `edge`.
pub open spec fn peek_coord(edge: int) -> int {
    edge - WIDGET_SIZE
}

/// Derived top-left positions of the widget, computed once from the primary
/// display's dimensions and fixed for a monitoring session.
#[derive(Debug, Clone, Copy, PartialEq, Eq, Structural)]
pub struct WindowPositions {
    pub hidden_x: i64,
    pub hidden_y: i64,
    pub peek_x: i64,
    pub peek_y: i64,
    pub screen_width: i64,
    pub screen_height: i64,
}

impl WindowPositions {
    /// Display dimensions within the accepted range; keeps every derived
    /// coordinate and the corner test free of overflow.
    pub open spec fn wf(self) -> bool {
        &&& 0 <= self.screen_width <= MAX_DISPLAY_EDGE
        &&& 0 <= self.screen_height <= MAX_DISPLAY_EDGE
        &&& self.hidden_x == hidden_coord(self.screen_width as int)
        &&& self.hidden_y == hidden_coord(self.screen_height as int)
        &&& self.peek_x == peek_coord(self.screen_width as int)
        &&& self.peek_y == peek_coord(self.screen_height as int)
    }

    /// Derives the hidden and peek positions from the display dimensions.
    pub fn new(screen_width: i64, screen_height: i64) -> (positions: WindowPositions)
        requires
            0 <= screen_width <= MAX_DISPLAY_EDGE,
            0 <= screen_height <= MAX_DISPLAY_EDGE,
        ensures
            positions.screen_width == screen_width,
            positions.screen_height == screen_height,
            positions.wf(),
    {
        let hidden_x = screen_width - (WIDGET_SIZE - HIDE_OFFSET);
        let hidden_y = screen_height - (WIDGET_SIZE - HIDE_OFFSET);

        let peek_x = screen_width - WIDGET_SIZE;
        let peek_y = screen_height - WIDGET_SIZE;

        WindowPositions { hidden_x, hidden_y, peek_x, peek_y, screen_width, screen_height }
    }

    /// The corner test: both axes must independently lie within
    /// `CORNER_ZONE` of the bottom-right corner.
    pub open spec fn in_corner_spec(self, cursor_x: int, cursor_y: int) -> bool {
        &&& cursor_x >= self.screen_width - CORNER_ZONE
        &&& cursor_y >= self.screen_height - CORNER_ZONE
    }

    /// Whether the cursor lies in the bottom-right corner trigger zone.
    pub fn is_cursor_in_corner(&self, cursor_x: i64, cursor_y: i64) -> (in_corner: bool)
        requires
            self.wf(),
        ensures
            in_corner == self.in_corner_spec(cursor_x as int, cursor_y as int),
    {
        cursor_x >= self.screen_width - CORNER_ZONE && cursor_y >= self.screen_height - CORNER_ZONE
    }

    /// Top-left position of the hidden widget.
    pub fn hidden_position(&self) -> (pos: (i64, i64))
        ensures
            pos.0 == self.hidden_x,
            pos.1 == self.hidden_y,
    {
        (self.hidden_x, self.hidden_y)
    }

    /// Top-left position of the visible (peeking or expanded) widget.
    pub fn peek_position(&self) -> (pos: (i64, i64))
        ensures
            pos.0 == self.peek_x,
            pos.1 == self.peek_y,
    {
        (self.peek_x, self.peek_y)
    }
}

} // verus!
