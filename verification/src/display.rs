use crate::alu::{bit, spec_bit};
use vstd::prelude::*;

verus! {

/// A blank character cell.
pub const BLANK: u8 = 0x20;

/// A lit horizontal segment, `_`.
pub const HORIZONTAL: u8 = 0x5F;

/// A lit vertical segment, `|`.
pub const VERTICAL: u8 = 0x7C;

/// The end of a row of text.
pub const NEWLINE: u8 = 0x0A;

/// Bit of the top segment.
pub const SEGMENT_TOP: u8 = 0;

/// Bit of the upper right segment.
pub const SEGMENT_UPPER_RIGHT: u8 = 1;

/// Bit of the lower right segment.
pub const SEGMENT_LOWER_RIGHT: u8 = 2;

/// Bit of the bottom segment.
pub const SEGMENT_BOTTOM: u8 = 3;

/// Bit of the lower left segment.
pub const SEGMENT_LOWER_LEFT: u8 = 4;

/// Bit of the upper left segment.
pub const SEGMENT_UPPER_LEFT: u8 = 5;

/// Bit of the middle segment.
pub const SEGMENT_MIDDLE: u8 = 6;

/// One of the three rows of text that a seven-segment digit takes up.
///
/// ```text
///  _     top:    the top segment
/// |_|    middle: upper left, middle and upper right segment
/// |_|    bottom: lower left, bottom and lower right segment
/// ```
#[derive(Clone, Copy, Debug, PartialEq, Eq, Structural)]
pub enum Row {
    /// The row of the top segment.
    Top,
    /// The row of the middle segment and the two upper vertical segments.
    Middle,
    /// The row of the bottom segment and the two lower vertical segments.
    Bottom,
}

/// The segment drawn in column `column` of `row` and the character that
/// draws it, or `None` where the cell holds no segment.
///
/// The bits of a display byte run clockwise round the digit, starting with
/// bit 0 at the top, and end with bit 6 in the middle.
pub open spec fn spec_segment(row: Row, column: u8) -> Option<(u8, u8)> {
    match row {
        Row::Top => if column == 1 {
            Some((SEGMENT_TOP, HORIZONTAL))
        } else {
            None
        },
        Row::Middle => if column == 0 {
            Some((SEGMENT_UPPER_LEFT, VERTICAL))
        } else if column == 1 {
            Some((SEGMENT_MIDDLE, HORIZONTAL))
        } else if column == 2 {
            Some((SEGMENT_UPPER_RIGHT, VERTICAL))
        } else {
            None
        },
        Row::Bottom => if column == 0 {
            Some((SEGMENT_LOWER_LEFT, VERTICAL))
        } else if column == 1 {
            Some((SEGMENT_BOTTOM, HORIZONTAL))
        } else if column == 2 {
            Some((SEGMENT_LOWER_RIGHT, VERTICAL))
        } else {
            None
        },
    }
}

/// The character in column `column` of `row` of the digit that shows the
/// display byte `digit`: the segment's character where the cell holds a
/// segment and its bit is set, a blank otherwise.
pub open spec fn spec_cell(digit: u8, row: Row, column: u8) -> u8 {
    match spec_segment(row, column) {
        Some((segment, mark)) => if spec_bit(digit, segment) {
            mark
        } else {
            BLANK
        },
        None => BLANK,
    }
}

/// The three characters of one row of a digit.
pub open spec fn spec_digit(digit: u8, row: Row) -> Seq<u8> {
    seq![spec_cell(digit, row, 0), spec_cell(digit, row, 1), spec_cell(digit, row, 2)]
}

/// The column of the last segment of a row.
pub open spec fn spec_last_segment_column(row: Row) -> u8 {
    match row {
        Row::Top => 1,
        Row::Middle => 2,
        Row::Bottom => 2,
    }
}

/// One row of the rightmost digit. The row is cut off behind its last
/// segment, and that segment takes up a character only where it is lit.
pub open spec fn spec_last_digit(digit: u8, row: Row) -> Seq<u8> {
    let last = spec_last_segment_column(row);
    if spec_cell(digit, row, last) != BLANK {
        spec_digit(digit, row).subrange(0, last + 1)
    } else {
        spec_digit(digit, row).subrange(0, last as int)
    }
}

/// One row of the display as text.
///
/// The four digits stand side by side, each preceded by a blank, with the
/// digit of display register 3 on the left and that of display register 0
/// on the right. The row ends with a newline.
pub open spec fn spec_row(dp: Seq<u8>, row: Row) -> Seq<u8> {
    seq![BLANK] + spec_digit(dp[3], row) + seq![BLANK] + spec_digit(dp[2], row) + seq![BLANK]
        + spec_digit(dp[1], row) + seq![BLANK] + spec_last_digit(dp[0], row) + seq![NEWLINE]
}

/// The escape sequence that moves the cursor of a terminal to its upper
/// left corner: `ESC [ 0 ; 0 H`.
pub open spec fn spec_cursor_home() -> Seq<u8> {
    seq![0x1Bu8, 0x5Bu8, 0x30u8, 0x3Bu8, 0x30u8, 0x48u8]
}

/// The display as text for a terminal: the cursor is moved to the upper left
/// corner, then the three rows follow.
pub open spec fn spec_frame(dp: Seq<u8>) -> Seq<u8> {
    spec_cursor_home() + spec_row(dp, Row::Top) + spec_row(dp, Row::Middle) + spec_row(
        dp,
        Row::Bottom,
    )
}

/// The character of one cell of a digit.
pub fn cell(digit: u8, row: Row, column: u8) -> (glyph: u8)
    ensures
        glyph == spec_cell(digit, row, column),
{
    match row {
        Row::Top => if column == 1 && bit(digit, SEGMENT_TOP) {
            HORIZONTAL
        } else {
            BLANK
        },
        Row::Middle => if column == 0 && bit(digit, SEGMENT_UPPER_LEFT) {
            VERTICAL
        } else if column == 1 && bit(digit, SEGMENT_MIDDLE) {
            HORIZONTAL
        } else if column == 2 && bit(digit, SEGMENT_UPPER_RIGHT) {
            VERTICAL
        } else {
            BLANK
        },
        Row::Bottom => if column == 0 && bit(digit, SEGMENT_LOWER_LEFT) {
            VERTICAL
        } else if column == 1 && bit(digit, SEGMENT_BOTTOM) {
            HORIZONTAL
        } else if column == 2 && bit(digit, SEGMENT_LOWER_RIGHT) {
            VERTICAL
        } else {
            BLANK
        },
    }
}

/// Appends one row of a digit to `out`.
fn push_digit(out: &mut Vec<u8>, digit: u8, row: Row)
    ensures
        final(out)@ == old(out)@ + spec_digit(digit, row),
{
    out.push(cell(digit, row, 0));
    out.push(cell(digit, row, 1));
    out.push(cell(digit, row, 2));
    assert(out@ =~= old(out)@ + spec_digit(digit, row));
}

/// Appends one row of the rightmost digit to `out`.
fn push_last_digit(out: &mut Vec<u8>, digit: u8, row: Row)
    ensures
        final(out)@ == old(out)@ + spec_last_digit(digit, row),
{
    out.push(cell(digit, row, 0));
    match row {
        Row::Top => {
            let top = cell(digit, row, 1);
            if top != BLANK {
                out.push(top);
            }
        },
        Row::Middle | Row::Bottom => {
            out.push(cell(digit, row, 1));
            let right = cell(digit, row, 2);
            if right != BLANK {
                out.push(right);
            }
        },
    }
    assert(out@ =~= old(out)@ + spec_last_digit(digit, row));
}

/// Renders one row of the display.
pub fn render_row(dp: [u8; 4], row: Row) -> (text: Vec<u8>)
    ensures
        text@ == spec_row(dp@, row),
{
    let mut text: Vec<u8> = Vec::new();
    text.push(BLANK);
    push_digit(&mut text, dp[3], row);
    text.push(BLANK);
    push_digit(&mut text, dp[2], row);
    text.push(BLANK);
    push_digit(&mut text, dp[1], row);
    text.push(BLANK);
    push_last_digit(&mut text, dp[0], row);
    text.push(NEWLINE);
    assert(text@ =~= spec_row(dp@, row));
    text
}

/// Renders the display: the bytes that draw the four digits in the upper
/// left corner of a terminal.
pub fn render_display(dp: [u8; 4]) -> (frame: Vec<u8>)
    ensures
        frame@ == spec_frame(dp@),
{
    let mut frame: Vec<u8> = Vec::new();
    frame.push(0x1B);
    frame.push(0x5B);
    frame.push(0x30);
    frame.push(0x3B);
    frame.push(0x30);
    frame.push(0x48);
    assert(frame@ =~= spec_cursor_home());
    let mut top = render_row(dp, Row::Top);
    let mut middle = render_row(dp, Row::Middle);
    let mut bottom = render_row(dp, Row::Bottom);
    frame.append(&mut top);
    frame.append(&mut middle);
    frame.append(&mut bottom);
    frame
}

} // verus!
