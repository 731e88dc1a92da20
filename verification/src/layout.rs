//! Choosing between the side-by-side and the stacked layout.

use vstd::prelude::*;

verus! {

/// How the art and the information are placed.
#[derive(Debug, Clone, Copy, PartialEq, Eq, Structural)]
pub enum LayoutMode {
    /// Art on the left, information on the right.
    Split,
    /// Art on top, information below.
    Stacked,
}

/// Terminal dimensions in character cells.
#[derive(Debug, Clone, Copy)]
pub struct TerminalSize {
    pub cols: u16,
    pub rows: u16,
}

/// The terminal size from a size query, or 80 x 24 when the query failed.
pub fn detect_terminal_size(query: Option<(u16, u16)>) -> (t: TerminalSize)
    ensures
        match query {
            Some((c, r)) => t.cols == c && t.rows == r,
            None => t.cols == 80 && t.rows == 24,
        },
{
    match query {
        Some((cols, rows)) => TerminalSize { cols, rows },
        None => TerminalSize { cols: 80, rows: 24 },
    }
}

/// The layout for a terminal and an art width: side by side when the
/// terminal has room for the art plus 50 columns and at least 10 rows,
/// stacked otherwise.
pub open spec fn layout_for(cols: int, rows: int, ascii_width: int) -> LayoutMode {
    if cols >= ascii_width + 50 && rows >= 10 {
        LayoutMode::Split
    } else {
        LayoutMode::Stacked
    }
}

/// Picks the layout for the terminal size and the art width.
pub fn decide_layout(term: &TerminalSize, ascii_width: usize) -> (m: LayoutMode)
    ensures
        m == layout_for(term.cols as int, term.rows as int, ascii_width as int),
{
    if term.cols >= 50 && ascii_width <= (term.cols - 50) as usize && term.rows >= 10 {
        LayoutMode::Split
    } else {
        LayoutMode::Stacked
    }
}

} // verus!
