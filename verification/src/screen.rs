//! The render plan: every draw clears the screen and then writes a short
//! list of positioned lines. This module computes that list — the banner
//! with its footer hint, or the three-line notice for a window below the
//! minimum size — with each line centered on the terminal's width.

use vstd::prelude::*;
use vstd::string::StrSliceExecFns;
use vstd::string::StringExecFns;

use crate::geometry::RenderMode;
use crate::geometry::center_col;
use crate::geometry::render_mode;
use crate::geometry::spec_margin;
use crate::geometry::spec_render_mode;
use crate::status::spec_decimal;
use crate::status::u32_to_decimal;

verus! {

/// One line of a draw: where it starts, what it says, and whether it is
/// written in the highlight color.
pub struct DrawLine {
    pub col: u16,
    pub row: u16,
    pub text: String,
    pub highlighted: bool,
}

/// The banner, line by line; five lines, each 28 characters wide.
pub open spec fn spec_art_line(i: int) -> Seq<char> {
    if i == 0 {
        "| |   (_) |        | |      "@
    } else if i == 1 {
        "| |__  _| |__   ___| |_ __  "@
    } else if i == 2 {
        "| '_ \\| | '_ \\ / _ \\ | '_ \\ "@
    } else if i == 3 {
        "| |_) | | |_) |  __/ | | | |"@
    } else {
        "|_.__/|_|_.__/ \\___|_|_| |_|"@
    }
}

/// The footer hint naming the two key bindings.
pub open spec fn spec_footer() -> Seq<char> {
    "[q]uit - [c]heck"@
}

/// The notice shown when the window is below the minimum size, line by line.
pub open spec fn spec_notice_line(i: int, cols: u16, rows: u16) -> Seq<char> {
    if i == 0 {
        "Window too small."@
    } else if i == 1 {
        "Minimum: 80x24"@
    } else {
        "Current: "@ + spec_decimal(cols as nat) + "x"@ + spec_decimal(rows as nat)
    }
}

/// The top row of the vertically centered three-line notice block.
pub open spec fn spec_notice_start_row(rows: u16) -> int {
    if rows / 2 >= 1 {
        rows / 2 - 1
    } else {
        0
    }
}

fn centered_line(cols: u16, row: u16, text: String, highlighted: bool) -> (l: DrawLine)
    ensures
        l.text == text,
        l.row == row,
        l.highlighted == highlighted,
        l.col as int == spec_margin(cols as int, text@.len() as int),
{
    let len = text.as_str().unicode_len();
    DrawLine { col: center_col(cols, len), row, text, highlighted }
}

/// The full plan of one draw for the given terminal size. In normal mode the
/// five banner lines sit on rows 2 through 6 with the highlighted footer one
/// blank row below them; in too-small mode the three notice lines sit as a
/// vertically centered block. Every line is centered on the terminal width.
pub fn build_screen(cols: u16, rows: u16) -> (v: Vec<DrawLine>)
    ensures
        spec_render_mode(cols, rows) == RenderMode::Normal ==> v@.len() == 6 && (forall|i: int|
            0 <= i < 5 ==> (#[trigger] v@[i]).text@ == spec_art_line(i) && v@[i].col as int
                == spec_margin(cols as int, spec_art_line(i).len() as int) && v@[i].row as int == 2
                + i && !v@[i].highlighted) && v@[5].text@ == spec_footer() && v@[5].col as int
            == spec_margin(cols as int, spec_footer().len() as int) && v@[5].row == 8
            && v@[5].highlighted,
        spec_render_mode(cols, rows) == RenderMode::TooSmall ==> v@.len() == 3 && (forall|i: int|
            0 <= i < 3 ==> (#[trigger] v@[i]).text@ == spec_notice_line(i, cols, rows)
                && v@[i].col as int == spec_margin(
                cols as int,
                spec_notice_line(i, cols, rows).len() as int,
            ) && v@[i].row as int == spec_notice_start_row(rows) + i && !v@[i].highlighted),
{
    match render_mode(cols, rows) {
        RenderMode::Normal => {
            let mut v: Vec<DrawLine> = Vec::new();
            v.push(centered_line(cols, 2, "| |   (_) |        | |      ".to_owned(), false));
            v.push(centered_line(cols, 3, "| |__  _| |__   ___| |_ __  ".to_owned(), false));
            v.push(centered_line(cols, 4, "| '_ \\| | '_ \\ / _ \\ | '_ \\ ".to_owned(), false));
            v.push(centered_line(cols, 5, "| |_) | | |_) |  __/ | | | |".to_owned(), false));
            v.push(centered_line(cols, 6, "|_.__/|_|_.__/ \\___|_|_| |_|".to_owned(), false));
            v.push(centered_line(cols, 8, "[q]uit - [c]heck".to_owned(), true));
            v
        },
        RenderMode::TooSmall => {
            let mut v: Vec<DrawLine> = Vec::new();
            let half = rows / 2;
            let start: u16 = if half >= 1 {
                half - 1
            } else {
                0
            };
            v.push(centered_line(cols, start, "Window too small.".to_owned(), false));
            v.push(centered_line(cols, start + 1, "Minimum: 80x24".to_owned(), false));
            let mut current = "Current: ".to_owned();
            let cols_digits = u32_to_decimal(cols as u32);
            current.append(cols_digits.as_str());
            current.append("x");
            let rows_digits = u32_to_decimal(rows as u32);
            current.append(rows_digits.as_str());
            proof {
                assert(current@ =~= spec_notice_line(2, cols, rows));
            }
            v.push(centered_line(cols, start + 2, current, false));
            v
        },
    }
}

/// Where the status line goes after a check: centered on the width the
/// terminal reports at that moment, and two rows below the banner's last
/// line — one blank row past the footer.
pub fn status_position(cols: u16, status: &str) -> (pos: (u16, u16))
    ensures
        pos.0 as int == spec_margin(cols as int, status@.len() as int),
        pos.1 == 9,
{
    (center_col(cols, status.unicode_len()), 9)
}

} // verus!
