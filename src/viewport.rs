//! The viewport: which lines of the text are on screen, where the cursor
//! stands, and the sticky column that vertical moves try to regain.
use crate::lines::{get_stripped_line_length, line_total, line_width};
use ropey::Rope;
use vstd::prelude::*;

verus! {

/// How many lines a half-page jump moves.
pub const CURSOR_JUMP_OFFSET: u64 = 30;

/// The last column the cursor may take on a line of width `w`.
pub open spec fn max_col(w: nat) -> nat {
    if w == 0 {
        0
    } else {
        (w - 1) as nat
    }
}

pub open spec fn min_nat(a: nat, b: nat) -> nat {
    if a <= b {
        a
    } else {
        b
    }
}

pub open spec fn max_nat(a: nat, b: nat) -> nat {
    if a >= b {
        a
    } else {
        b
    }
}

/// What the sticky-column check asks for: `0` for no correction, else the
/// column the cursor has to move right to.
pub open spec fn required_correction(col: nat, before_col: nat, line_len: nat) -> nat {
    if col == before_col {
        0
    } else if line_len > before_col {
        before_col
    } else if line_len <= 1 {
        0
    } else {
        (line_len - 1) as nat
    }
}

/// The column after a vertical move from column `col`, with sticky column
/// `shadow`, onto a line of width `w`: as near the larger of the two as the
/// line allows.
pub open spec fn corrected_col(col: nat, shadow: nat, w: nat) -> nat {
    min_nat(max_nat(col, shadow), max_col(w))
}

/// The last line on screen when line `start` is at the top of `rows` rows,
/// in a text of `n` lines.
pub open spec fn last_visible(start: nat, rows: nat, n: nat) -> nat {
    (min_nat(start + rows, n) - 1) as nat
}

/// What the screen needs after a move.
#[derive(Clone, Copy, Debug, PartialEq, Eq, Structural)]
pub enum Redraw {
    /// Nothing to paint: only the cursor moves.
    Cursor,
    /// The text moves up one row and line `end` is painted on the bottom row.
    ScrollUp,
    /// The text moves down one row and line `start` is painted on the top row.
    ScrollDown,
    /// Every text row is painted again, from line `start`.
    All,
}

#[derive(Clone, Copy, Debug)]
pub struct DisplayLines {
    /// The first line on screen, counting from zero.
    pub start: u64,
    /// The last line on screen.
    pub end: u64,
    /// The cursor (row, column) kept while the search prompt is open.
    pub cursor_pos: (u64, u64),
    /// The row and the sticky column: the column last chosen by a horizontal
    /// move, which vertical moves return to where the line is long enough.
    pub shadow_cursor_pos: (u64, u64),
    /// The cursor's row on screen.
    pub cursor_row: u64,
    /// The cursor's column.
    pub cursor_col: u64,
}

impl DisplayLines {
    /// The line under the cursor.
    pub open spec fn cursor_line(self) -> nat {
        (self.start + self.cursor_row) as nat
    }

    /// The viewport over a text of `n` lines and `rows` rows on screen: the
    /// cursor is on screen, on a line of the text, and no further right than
    /// the line's last column.
    pub open spec fn wf(self, lines: Rope, n: nat, rows: nat) -> bool {
        &&& 1 <= rows <= u16::MAX
        &&& n == line_total(lines)
        &&& 1 <= n <= usize::MAX
        &&& self.start < n
        &&& self.end == last_visible(self.start as nat, rows, n)
        &&& self.cursor_row <= self.end - self.start
        &&& self.cursor_col <= max_col(line_width(lines, self.cursor_line() as int))
    }

    /// The viewport with line `start` at the top and the cursor on row `row`;
    /// where the cursor changes line its column is corrected for the new one.
    pub open spec fn moved_to(self, lines: Rope, n: nat, rows: nat, start: nat, row: nat) -> DisplayLines {
        let line = start + row;
        DisplayLines {
            start: start as u64,
            end: last_visible(start, rows, n) as u64,
            cursor_row: row as u64,
            cursor_col: if line == self.cursor_line() {
                self.cursor_col
            } else {
                corrected_col(
                    self.cursor_col as nat,
                    self.shadow_cursor_pos.1 as nat,
                    line_width(lines, line as int),
                ) as u64
            },
            ..self
        }
    }

    /// One line down: scroll when the cursor is on the bottom row and more
    /// text follows, else move the cursor down a row if a line follows.
    pub open spec fn moved_down(self, lines: Rope, n: nat, rows: nat) -> DisplayLines {
        if self.cursor_row + 1 == rows && self.end + 1 < n {
            self.moved_to(lines, n, rows, (self.start + 1) as nat, self.cursor_row as nat)
        } else if self.cursor_row + 1 < rows && self.cursor_line() + 1 < n {
            self.moved_to(lines, n, rows, self.start as nat, (self.cursor_row + 1) as nat)
        } else {
            self
        }
    }

    pub open spec fn down_redraw(self, n: nat, rows: nat) -> Redraw {
        if self.cursor_row + 1 == rows && self.end + 1 < n {
            Redraw::ScrollUp
        } else {
            Redraw::Cursor
        }
    }

    /// One line up: scroll when the cursor is on the top row and text lies
    /// above, else move the cursor up a row if it is not on the top row.
    pub open spec fn moved_up(self, lines: Rope, n: nat, rows: nat) -> DisplayLines {
        if self.cursor_row == 0 && self.start > 0 {
            self.moved_to(lines, n, rows, (self.start - 1) as nat, 0)
        } else if self.cursor_row > 0 {
            self.moved_to(lines, n, rows, self.start as nat, (self.cursor_row - 1) as nat)
        } else {
            self
        }
    }

    pub open spec fn up_redraw(self) -> Redraw {
        if self.cursor_row == 0 && self.start > 0 {
            Redraw::ScrollDown
        } else {
            Redraw::Cursor
        }
    }

    /// One column left, which also sets the sticky column.
    pub open spec fn moved_left(self) -> DisplayLines {
        if self.cursor_col > 0 {
            DisplayLines {
                cursor_col: (self.cursor_col - 1) as u64,
                shadow_cursor_pos: (self.cursor_row, (self.cursor_col - 1) as u64),
                ..self
            }
        } else {
            self
        }
    }

    /// One column right while that stays on the line, which also sets the
    /// sticky column.
    pub open spec fn moved_right(self, lines: Rope) -> DisplayLines {
        if self.cursor_col + 1 < line_width(lines, self.cursor_line() as int) {
            DisplayLines {
                cursor_col: (self.cursor_col + 1) as u64,
                shadow_cursor_pos: (self.cursor_row, (self.cursor_col + 1) as u64),
                ..self
            }
        } else {
            self
        }
    }

    /// How far a half-page jump up scrolls: as far as the jump goes, but not
    /// above the first line.
    pub open spec fn up_scroll(self) -> nat {
        min_nat(CURSOR_JUMP_OFFSET as nat, self.start as nat)
    }

    /// A half-page jump up: scroll up to the jump size, then move the cursor
    /// up by what is left of it, no higher than the top row.
    pub open spec fn jumped_up(self, lines: Rope, n: nat, rows: nat) -> DisplayLines {
        let scroll = self.up_scroll();
        let left = (CURSOR_JUMP_OFFSET - scroll) as nat;
        self.moved_to(
            lines,
            n,
            rows,
            (self.start - scroll) as nat,
            (self.cursor_row - min_nat(left, self.cursor_row as nat)) as nat,
        )
    }

    /// How far a half-page jump down scrolls: as far as the jump goes, but
    /// not so far that the last line leaves the bottom row.
    pub open spec fn down_scroll(self, n: nat) -> nat {
        min_nat(CURSOR_JUMP_OFFSET as nat, (n - 1 - self.end) as nat)
    }

    /// A half-page jump down: scroll up to the jump size, then move the
    /// cursor down by what is left of it, no lower than the last line.
    pub open spec fn jumped_down(self, lines: Rope, n: nat, rows: nat) -> DisplayLines {
        let scroll = self.down_scroll(n);
        let start = self.start + scroll;
        let left = (CURSOR_JUMP_OFFSET - scroll) as nat;
        self.moved_to(
            lines,
            n,
            rows,
            start as nat,
            min_nat((self.cursor_row + left) as nat, (last_visible(start as nat, rows, n) - start) as nat),
        )
    }

    /// The viewport with the line of a match (numbered from one) at the top
    /// and the cursor on the match's column, as far as the line allows; that
    /// column, chosen on purpose, becomes the sticky column.
    pub open spec fn at_match(self, lines: Rope, n: nat, rows: nat, m: (u64, u64)) -> DisplayLines {
        let top = min_nat(if m.0 == 0 { 0 } else { (m.0 - 1) as nat }, (n - 1) as nat);
        DisplayLines {
            start: top as u64,
            end: last_visible(top, rows, n) as u64,
            cursor_row: 0,
            cursor_col: min_nat(m.1 as nat, max_col(line_width(lines, top as int))) as u64,
            shadow_cursor_pos: (0, min_nat(m.1 as nat, max_col(line_width(lines, top as int))) as u64),
            ..self
        }
    }
}

impl DisplayLines {
    /// The viewport at the top of the text: the first lines on screen and
    /// the cursor in the top left corner.
    pub fn new(lines: &Rope, n: u64, rows: u64) -> (d: DisplayLines)
        requires
            n == line_total(*lines),
            1 <= n <= usize::MAX,
            1 <= rows <= u16::MAX,
        ensures
            d.wf(*lines, n as nat, rows as nat),
            d.start == 0,
            d.cursor_row == 0,
            d.cursor_col == 0,
            d.cursor_pos == (0u64, 0u64),
            d.shadow_cursor_pos == (0u64, 0u64),
    {
        DisplayLines {
            start: 0,
            end: last_visible_line(0, rows, n),
            cursor_pos: (0, 0),
            shadow_cursor_pos: (0, 0),
            cursor_row: 0,
            cursor_col: 0,
        }
    }

    /// Puts line `start` at the top and the cursor on row `row` (see
    /// `moved_to`).
    fn place(&mut self, lines: &Rope, n: u64, rows: u64, start: u64, row: u64)
        requires
            old(self).wf(*lines, n as nat, rows as nat),
            start < n,
            row <= last_visible(start as nat, rows as nat, n as nat) - start,
        ensures
            *final(self) == old(self).moved_to(*lines, n as nat, rows as nat, start as nat, row as nat),
            final(self).wf(*lines, n as nat, rows as nat),
    {
        let line = start + row;
        if line != self.start + self.cursor_row {
            let w = get_stripped_line_length(lines, line as usize);
            self.cursor_col = correct_column(self.cursor_col, self.shadow_cursor_pos.1, w as u64);
        }
        self.start = start;
        self.end = last_visible_line(start, rows, n);
        self.cursor_row = row;
    }

    /// One line down (see `moved_down`).
    pub fn move_down(&mut self, lines: &Rope, n: u64, rows: u64) -> (r: Redraw)
        requires
            old(self).wf(*lines, n as nat, rows as nat),
        ensures
            *final(self) == old(self).moved_down(*lines, n as nat, rows as nat),
            final(self).wf(*lines, n as nat, rows as nat),
            r == old(self).down_redraw(n as nat, rows as nat),
    {
        if self.cursor_row + 1 == rows && self.end + 1 < n {
            let (start, row) = (self.start + 1, self.cursor_row);
            self.place(lines, n, rows, start, row);
            Redraw::ScrollUp
        } else if self.cursor_row + 1 < rows && self.start + self.cursor_row + 1 < n {
            let (start, row) = (self.start, self.cursor_row + 1);
            self.place(lines, n, rows, start, row);
            Redraw::Cursor
        } else {
            Redraw::Cursor
        }
    }

    /// One line up (see `moved_up`).
    pub fn move_up(&mut self, lines: &Rope, n: u64, rows: u64) -> (r: Redraw)
        requires
            old(self).wf(*lines, n as nat, rows as nat),
        ensures
            *final(self) == old(self).moved_up(*lines, n as nat, rows as nat),
            final(self).wf(*lines, n as nat, rows as nat),
            r == old(self).up_redraw(),
    {
        if self.cursor_row == 0 && self.start > 0 {
            let start = self.start - 1;
            self.place(lines, n, rows, start, 0);
            Redraw::ScrollDown
        } else if self.cursor_row > 0 {
            let (start, row) = (self.start, self.cursor_row - 1);
            self.place(lines, n, rows, start, row);
            Redraw::Cursor
        } else {
            Redraw::Cursor
        }
    }

    /// One column left (see `moved_left`).
    pub fn move_left(&mut self, lines: &Rope, n: u64, rows: u64)
        requires
            old(self).wf(*lines, n as nat, rows as nat),
        ensures
            *final(self) == old(self).moved_left(),
            final(self).wf(*lines, n as nat, rows as nat),
    {
        if self.cursor_col > 0 {
            self.cursor_col = self.cursor_col - 1;
            self.shadow_cursor_pos = (self.cursor_row, self.cursor_col);
        }
    }

    /// One column right (see `moved_right`).
    pub fn move_right(&mut self, lines: &Rope, n: u64, rows: u64)
        requires
            old(self).wf(*lines, n as nat, rows as nat),
        ensures
            *final(self) == old(self).moved_right(*lines),
            final(self).wf(*lines, n as nat, rows as nat),
    {
        let w = get_stripped_line_length(lines, (self.start + self.cursor_row) as usize);
        if (self.cursor_col as u128) + 1 < w as u128 {
            self.cursor_col = self.cursor_col + 1;
            self.shadow_cursor_pos = (self.cursor_row, self.cursor_col);
        }
    }

    /// A half-page jump up (see `jumped_up`).
    pub fn jump_up(&mut self, lines: &Rope, n: u64, rows: u64) -> (r: Redraw)
        requires
            old(self).wf(*lines, n as nat, rows as nat),
        ensures
            *final(self) == old(self).jumped_up(*lines, n as nat, rows as nat),
            final(self).wf(*lines, n as nat, rows as nat),
            r == (if old(self).up_scroll() > 0 { Redraw::All } else { Redraw::Cursor }),
    {
        let scroll: u64 = if self.start < CURSOR_JUMP_OFFSET {
            self.start
        } else {
            CURSOR_JUMP_OFFSET
        };
        let left = CURSOR_JUMP_OFFSET - scroll;
        let up: u64 = if left < self.cursor_row {
            left
        } else {
            self.cursor_row
        };
        let (start, row) = (self.start - scroll, self.cursor_row - up);
        self.place(lines, n, rows, start, row);
        if scroll > 0 {
            Redraw::All
        } else {
            Redraw::Cursor
        }
    }

    /// A half-page jump down (see `jumped_down`).
    pub fn jump_down(&mut self, lines: &Rope, n: u64, rows: u64) -> (r: Redraw)
        requires
            old(self).wf(*lines, n as nat, rows as nat),
        ensures
            *final(self) == old(self).jumped_down(*lines, n as nat, rows as nat),
            final(self).wf(*lines, n as nat, rows as nat),
            final(self).start - old(self).start <= n - 1 - old(self).end,
            r == (if old(self).down_scroll(n as nat) > 0 { Redraw::All } else { Redraw::Cursor }),
    {
        let room = n - 1 - self.end;
        let scroll: u64 = if room < CURSOR_JUMP_OFFSET {
            room
        } else {
            CURSOR_JUMP_OFFSET
        };
        let start = self.start + scroll;
        let bottom = last_visible_line(start, rows, n) - start;
        let left = CURSOR_JUMP_OFFSET - scroll;
        let row: u64 = if self.cursor_row + left < bottom {
            self.cursor_row + left
        } else {
            bottom
        };
        self.place(lines, n, rows, start, row);
        if scroll > 0 {
            Redraw::All
        } else {
            Redraw::Cursor
        }
    }

    /// Puts the line of match `m` at the top (see `at_match`).
    pub fn jump_to_match(&mut self, lines: &Rope, n: u64, rows: u64, m: (u64, u64))
        requires
            old(self).wf(*lines, n as nat, rows as nat),
        ensures
            *final(self) == old(self).at_match(*lines, n as nat, rows as nat, m),
            final(self).wf(*lines, n as nat, rows as nat),
    {
        let first: u64 = if m.0 == 0 {
            0
        } else {
            m.0 - 1
        };
        let top: u64 = if first < n - 1 {
            first
        } else {
            n - 1
        };
        let w = get_stripped_line_length(lines, top as usize);
        let last: u64 = if w == 0 {
            0
        } else {
            w as u64 - 1
        };
        self.start = top;
        self.end = last_visible_line(top, rows, n);
        self.cursor_row = 0;
        self.cursor_col = if m.1 < last {
            m.1
        } else {
            last
        };
        self.shadow_cursor_pos = (0, self.cursor_col);
    }
}

/// Every move keeps a well-formed viewport well formed: the cursor stays on
/// screen, on a line of the text, within that line's columns.
pub proof fn lemma_moves_keep_view(d: DisplayLines, lines: Rope, n: nat, rows: nat, m: (u64, u64))
    requires
        d.wf(lines, n, rows),
    ensures
        d.moved_down(lines, n, rows).wf(lines, n, rows),
        d.moved_up(lines, n, rows).wf(lines, n, rows),
        d.moved_left().wf(lines, n, rows),
        d.moved_right(lines).wf(lines, n, rows),
        d.jumped_up(lines, n, rows).wf(lines, n, rows),
        d.jumped_down(lines, n, rows).wf(lines, n, rows),
        d.at_match(lines, n, rows, m).wf(lines, n, rows),
{
}

/// A half-page jump down never scrolls past the end of the text: the
/// viewport moves down by no more than it takes to bring the last line to
/// the bottom row, it brings the last line there when the jump reaches that
/// far, and the cursor stays on a line of the text.
pub proof fn lemma_half_page_down_stays_in_file(d: DisplayLines, lines: Rope, n: nat, rows: nat)
    requires
        d.wf(lines, n, rows),
    ensures
        ({
            let d2 = d.jumped_down(lines, n, rows);
            &&& d2.start - d.start == d.down_scroll(n)
            &&& d2.start - d.start <= n - 1 - d.end
            &&& d2.end <= n - 1
            &&& d2.cursor_line() <= n - 1
            &&& d.end + CURSOR_JUMP_OFFSET >= n - 1 ==> d2.end == n - 1
        }),
{
}

/// The sticky-column check of a vertical move from column `col` with sticky
/// column `before_col` onto a line of `line_len` columns: `0` where no
/// correction is needed, else the column to move right to.
pub fn is_required_correction_cursor_col(col: u64, before_col: u64, line_len: u64) -> (r: u64)
    ensures
        r == required_correction(col as nat, before_col as nat, line_len as nat),
{
    if col == before_col {
        return 0;
    }
    if line_len > before_col {
        return before_col;
    }
    if line_len == 0 || line_len == 1 {
        return 0;
    }
    line_len - 1
}

/// The column after a vertical move: clamped to the new line, then moved
/// right toward the sticky column as far as the line allows.
pub fn correct_column(col: u64, shadow_col: u64, line_len: u64) -> (r: u64)
    ensures
        r == corrected_col(col as nat, shadow_col as nat, line_len as nat),
{
    let last: u64 = if line_len == 0 {
        0
    } else {
        line_len - 1
    };
    let clamped: u64 = if col > last {
        last
    } else {
        col
    };
    let c = is_required_correction_cursor_col(col, shadow_col, last + 1);
    if c > col {
        c
    } else {
        clamped
    }
}

/// The last line on screen with line `start` at the top.
pub fn last_visible_line(start: u64, rows: u64, n: u64) -> (r: u64)
    requires
        start < n,
        rows >= 1,
    ensures
        r == last_visible(start as nat, rows as nat, n as nat),
{
    if rows <= n - start {
        start + rows - 1
    } else {
        n - 1
    }
}

} // verus!
