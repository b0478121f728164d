//! What a terminal reports to the user interface.

use vstd::prelude::*;

verus! {

/// Events sent from a terminal session to the user interface.
#[derive(Debug, Clone)]
pub enum PtyEvent {
    /// Terminal output, encoded as base64.
    Output { data: String },
    /// The process behind the terminal exited.
    Exit { code: i32 },
    /// Reading from the terminal failed.
    Error { message: String },
}

/// A terminal event as plain values.
pub enum PtyEventView {
    Output { data: Seq<char> },
    Exit { code: i32 },
    Error { message: Seq<char> },
}

impl View for PtyEvent {
    type V = PtyEventView;

    open spec fn view(&self) -> PtyEventView {
        match *self {
            PtyEvent::Output { data } => PtyEventView::Output { data: data@ },
            PtyEvent::Exit { code } => PtyEventView::Exit { code },
            PtyEvent::Error { message } => PtyEventView::Error { message: message@ },
        }
    }
}

/// The size of a terminal in character cells and in pixels.
#[derive(Debug, Clone, Copy, PartialEq, Eq, Structural)]
pub struct TerminalSize {
    pub rows: u16,
    pub cols: u16,
    pub pixel_width: u16,
    pub pixel_height: u16,
}

impl TerminalSize {
    /// A size of `rows` by `cols` cells that leaves the pixel size open.
    pub open spec fn cells(rows: u16, cols: u16) -> TerminalSize {
        TerminalSize { rows, cols, pixel_width: 0, pixel_height: 0 }
    }

    /// A size of `rows` by `cols` cells that leaves the pixel size open.
    pub fn of_cells(rows: u16, cols: u16) -> (size: TerminalSize)
        ensures
            size == TerminalSize::cells(rows, cols),
    {
        TerminalSize { rows, cols, pixel_width: 0, pixel_height: 0 }
    }
}

} // verus!
