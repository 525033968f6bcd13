//! Terminal dimensions, the render mode derived from them, and the
//! horizontal centering rule used for every line that is drawn.

use vstd::prelude::*;

verus! {

/// Smallest terminal width at which the banner is shown.
pub const MIN_COLS: u16 = 80;

/// Smallest terminal height at which the banner is shown.
pub const MIN_ROWS: u16 = 24;

/// What a draw will show for a given terminal size.
#[derive(Clone, Copy, PartialEq, Eq, Structural, Debug)]
pub enum RenderMode {
    /// The banner and footer are drawn.
    Normal,
    /// Only the three-line "window too small" notice is drawn.
    TooSmall,
}

/// The render mode is a pure function of the dimensions: the banner at
/// 80x24 and above, the too-small notice below that. It is recomputed on
/// every draw and stored nowhere.
pub open spec fn spec_render_mode(cols: u16, rows: u16) -> RenderMode {
    if cols >= MIN_COLS && rows >= MIN_ROWS {
        RenderMode::Normal
    } else {
        RenderMode::TooSmall
    }
}

pub fn render_mode(cols: u16, rows: u16) -> (m: RenderMode)
    ensures
        m == spec_render_mode(cols, rows),
{
    if cols >= MIN_COLS && rows >= MIN_ROWS {
        RenderMode::Normal
    } else {
        RenderMode::TooSmall
    }
}

/// The mode is `Normal` exactly when both dimensions reach the minimum:
/// 80x24 itself is `Normal`, while 79x24 and 80x23 are `TooSmall`.
pub proof fn lemma_mode_normal_iff(cols: u16, rows: u16)
    ensures
        spec_render_mode(cols, rows) == RenderMode::Normal <==> (cols >= 80 && rows >= 24),
{
}

/// Left margin that centers content of width `len` in a terminal of width
/// `cols`: half the free space, and zero when the content is wider than the
/// terminal (never an underflow).
pub open spec fn spec_margin(cols: int, len: int) -> int {
    if len <= cols {
        (cols - len) / 2
    } else {
        0
    }
}

pub fn center_col(cols: u16, len: usize) -> (m: u16)
    ensures
        m as int == spec_margin(cols as int, len as int),
{
    if len < cols as usize {
        (cols - len as u16) / 2
    } else {
        0
    }
}

/// Centering is deterministic and clamped: the margin is exactly
/// max(0, (cols - len) / 2), it is never negative, and content that fits is
/// never pushed past the right edge.
pub proof fn lemma_margin_clamped_midpoint(cols: int, len: int)
    requires
        0 <= cols,
        0 <= len,
    ensures
        spec_margin(cols, len) == if (cols - len) / 2 >= 0 {
            (cols - len) / 2
        } else {
            0
        },
        0 <= spec_margin(cols, len),
        len <= cols ==> spec_margin(cols, len) + len <= cols,
{
}

} // verus!
