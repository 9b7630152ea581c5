//! Differential redraw: the erase-old/draw-new plan for one frame, and its
//! emission to the terminal through crossterm.
//!
//! The plan ([`Bouncer::render_ops`]) is pure and exactly specified: first
//! one blank row per visible line of the previously rendered bounding box,
//! then one colored text row per visible line of the glyph at the current
//! position. Coordinates that would leave the addressable terminal space
//! (including the top end of the `u16` range, where the terminal driver
//! adds one for its 1-indexed protocol) are skipped, never emitted.

use vstd::prelude::*;

use crate::bouncer::Bouncer;
use crate::bouncer::Color;
use crate::geometry::row;
use crate::geometry::dimensions;
use crate::geometry::spec_height;
use crate::geometry::spec_rows;
use crate::geometry::spec_width;
use crossterm::QueueableCommand;
use std::io::Write;

verus! {

/// One queued instruction of a frame: blank a span of the previous
/// bounding box, or write one text row of the glyph in the current color
/// (followed by a reset to the default color when emitted).
#[derive(Debug)]
pub enum DrawOp {
    Erase { x: u16, y: u16, blank: String },
    Row { x: u16, y: u16, color: Color, text: String },
}

/// The largest row or column index that may be handed to the terminal
/// driver: the axis bound, further capped below `u16::MAX - 1` because the
/// driver adds one for the terminal's 1-indexed protocol.
pub open spec fn axis_limit(max_c: u16) -> int {
    if max_c < 65534 {
        max_c as int
    } else {
        65534
    }
}

/// How many of `height` lines starting at row `top` lie strictly below
/// `lim`: the visible prefix of a bounding box.
pub open spec fn visible_rows(top: int, height: int, lim: int) -> int {
    if top >= lim {
        0
    } else if lim - top < height {
        lim - top
    } else {
        height
    }
}

/// A row of `w` blank cells.
pub open spec fn blank_row(w: int) -> Seq<char> {
    Seq::new(w as nat, |j: int| ' ')
}

/// Both coordinates of the instruction stay below `u16::MAX - 1`, so the
/// terminal driver's one-based adjustment cannot wrap.
pub open spec fn op_addressable(op: DrawOp) -> bool {
    match op {
        DrawOp::Erase { x, y, .. } => x <= 65534 && y <= 65534,
        DrawOp::Row { x, y, .. } => x <= 65534 && y <= 65534,
    }
}

impl Bouncer {
    /// The column limit for this state (see [`axis_limit`]).
    pub open spec fn col_limit(self) -> int {
        axis_limit(self.max_x)
    }

    /// The row limit for this state (see [`axis_limit`]).
    pub open spec fn row_limit(self) -> int {
        axis_limit(self.max_y)
    }

    /// The column at which the previous bounding box is erased: its
    /// column, capped at the column limit.
    pub open spec fn erase_col(self) -> int {
        if (self.prev_x as int) < self.col_limit() {
            self.prev_x as int
        } else {
            self.col_limit()
        }
    }

    /// The column at which the glyph is drawn: its column, capped at the
    /// column limit.
    pub open spec fn draw_col(self) -> int {
        if (self.x as int) < self.col_limit() {
            self.x as int
        } else {
            self.col_limit()
        }
    }

    /// How many erase lines this frame emits.
    pub open spec fn erase_count(self) -> int {
        visible_rows(self.prev_y as int, spec_height(self.mode), self.row_limit())
    }

    /// How many glyph rows this frame emits.
    pub open spec fn draw_count(self) -> int {
        visible_rows(self.y as int, spec_height(self.mode), self.row_limit())
    }

    /// What the `k`-th erase instruction of this frame must be: a row of
    /// blanks as wide as the current mode's bounding box, on the `k`-th
    /// visible line of the previously rendered box.
    pub open spec fn erase_op_for(self, k: int, op: DrawOp) -> bool {
        match op {
            DrawOp::Erase { x, y, blank } => {
                &&& x as int == self.erase_col()
                &&& y as int == self.prev_y as int + k
                &&& blank@ == blank_row(spec_width(self.mode))
            },
            _ => false,
        }
    }

    /// What the `k`-th glyph-row instruction of this frame must be: the
    /// `k`-th text row of the current mode, in the current color, on the
    /// `k`-th visible line at the current position.
    pub open spec fn row_op_for(self, k: int, op: DrawOp) -> bool {
        match op {
            DrawOp::Row { x, y, color, text } => {
                &&& x as int == self.draw_col()
                &&& y as int == self.y as int + k
                &&& color == self.color
                &&& text@ == spec_rows(self.mode)[k]
            },
            _ => false,
        }
    }

    /// Builds the frame plan: every visible erase line of the previous
    /// bounding box (using the *current* mode's dimensions), then every
    /// visible text row of the glyph at the current position. Nothing
    /// else is ever emitted, and every instruction's coordinates are
    /// within the addressable limits.
    pub fn render_ops(&self) -> (ops: Vec<DrawOp>)
        ensures
            ops@.len() == self.erase_count() + self.draw_count(),
            forall|k: int|
                0 <= k < self.erase_count() ==> self.erase_op_for(k, #[trigger] ops@[k]),
            forall|k: int|
                0 <= k < self.draw_count() ==> self.row_op_for(
                    k,
                    #[trigger] ops@[self.erase_count() + k],
                ),
            forall|k: int| 0 <= k < ops@.len() ==> op_addressable(#[trigger] ops@[k]),
    {
        let (w, h) = dimensions(self.mode);
        let lim_x: u16 = if self.max_x < 65534 { self.max_x } else { 65534 };
        let lim_y: u16 = if self.max_y < 65534 { self.max_y } else { 65534 };
        let erase_x: u16 = if self.prev_x < lim_x { self.prev_x } else { lim_x };
        let draw_x: u16 = if self.x < lim_x { self.x } else { lim_x };

        // The blank row that overwrites one line of the previous box.
        let mut blank = String::new();
        let mut j: u16 = 0;
        while j < w
            invariant
                j <= w,
                blank@.len() == j as int,
                forall|t: int| 0 <= t < j as int ==> blank@[t] == ' ',
            decreases w - j,
        {
            proof {
                reveal_strlit(" ");
            }
            blank.append(" ");
            j = j + 1;
        }
        proof {
            assert(blank@ =~= blank_row(w as int));
        }

        let erase_n: u16 = if self.prev_y >= lim_y {
            0
        } else if lim_y - self.prev_y < h {
            lim_y - self.prev_y
        } else {
            h
        };
        let draw_n: u16 = if self.y >= lim_y {
            0
        } else if lim_y - self.y < h {
            lim_y - self.y
        } else {
            h
        };

        let mut ops: Vec<DrawOp> = Vec::new();
        let mut i: u16 = 0;
        while i < erase_n
            invariant
                i <= erase_n,
                erase_n as int == self.erase_count(),
                erase_x as int == self.erase_col(),
                w as int == spec_width(self.mode),
                erase_n as int <= self.row_limit() - self.prev_y as int
                    || erase_n == 0,
                blank@ == blank_row(spec_width(self.mode)),
                ops@.len() == i as int,
                forall|k: int| 0 <= k < i as int ==> self.erase_op_for(k, #[trigger] ops@[k]),
                forall|k: int| 0 <= k < i as int ==> op_addressable(#[trigger] ops@[k]),
            decreases erase_n - i,
        {
            ops.push(DrawOp::Erase { x: erase_x, y: self.prev_y + i, blank: blank.clone() });
            i = i + 1;
        }

        let mut k: u16 = 0;
        while k < draw_n
            invariant
                k <= draw_n,
                erase_n as int == self.erase_count(),
                draw_n as int == self.draw_count(),
                draw_n as int <= spec_height(self.mode),
                draw_x as int == self.draw_col(),
                draw_n as int <= self.row_limit() - self.y as int || draw_n == 0,
                ops@.len() == erase_n as int + k as int,
                forall|t: int|
                    0 <= t < erase_n as int ==> self.erase_op_for(t, #[trigger] ops@[t]),
                forall|t: int|
                    0 <= t < k as int ==> self.row_op_for(
                        t,
                        #[trigger] ops@[erase_n as int + t],
                    ),
                forall|t: int| 0 <= t < ops@.len() ==> op_addressable(#[trigger] ops@[t]),
            decreases draw_n - k,
        {
            let text = row(self.mode, k).to_owned();
            ops.push(DrawOp::Row { x: draw_x, y: self.y + k, color: self.color, text });
            k = k + 1;
        }
        ops
    }

    /// Emits this frame's plan to the terminal, then flushes, so partial
    /// writes are never left buffered. What is emitted is fixed by the
    /// contract of [`Self::render_ops`]; whether the sink accepts it is
    /// the sink's own affair, and its first failure is returned as is.
    pub fn draw(&self, out: &mut std::io::Stdout) -> (r: Result<(), std::io::Error>) {
        let ops = self.render_ops();
        let mut i: usize = 0;
        while i < ops.len()
            invariant
                forall|t: int| 0 <= t < ops@.len() ==> op_addressable(#[trigger] ops@[t]),
            decreases ops.len() - i,
        {
            proof {
                assert(op_addressable(ops@[i as int]));
            }
            match &ops[i] {
                DrawOp::Erase { x, y, blank } => {
                    match queue_move_to(out, *x, *y) {
                        Ok(_) => {},
                        Err(e) => {
                            return Err(e);
                        },
                    }
                    match queue_print(out, blank.as_str()) {
                        Ok(_) => {},
                        Err(e) => {
                            return Err(e);
                        },
                    }
                },
                DrawOp::Row { x, y, color, text } => {
                    match queue_move_to(out, *x, *y) {
                        Ok(_) => {},
                        Err(e) => {
                            return Err(e);
                        },
                    }
                    match queue_set_color(out, *color) {
                        Ok(_) => {},
                        Err(e) => {
                            return Err(e);
                        },
                    }
                    match queue_print(out, text.as_str()) {
                        Ok(_) => {},
                        Err(e) => {
                            return Err(e);
                        },
                    }
                    match queue_reset_color(out) {
                        Ok(_) => {},
                        Err(e) => {
                            return Err(e);
                        },
                    }
                },
            }
            i = i + 1;
        }
        flush_stdout(out)
    }
}

/// Standard output, the character-cell sink the frame is queued into.
/// Opaque: only the trusted emitters below touch it.
#[verifier::external_type_specification]
#[verifier::external_body]
pub struct ExStdout(std::io::Stdout);

/// The sink's failure value, returned to the caller unread.
#[verifier::external_type_specification]
#[verifier::external_body]
pub struct ExIoError(std::io::Error);

/// Relies on crossterm's `QueueableCommand::queue` with `cursor::MoveTo`:
/// queues a cursor move to column `x`, row `y`. The command adds one to
/// each coordinate for the terminal's 1-indexed protocol in `u16`
/// arithmetic, so coordinates at `u16::MAX` would wrap; they are excluded.
#[verifier::external_body]
fn queue_move_to(out: &mut std::io::Stdout, x: u16, y: u16) -> (r: Result<(), std::io::Error>)
    requires
        x <= 65534,
        y <= 65534,
{
    match out.queue(crossterm::cursor::MoveTo(x, y)) {
        Ok(_) => Ok(()),
        Err(e) => Err(e),
    }
}

/// Relies on crossterm's `QueueableCommand::queue` with `style::Print`:
/// queues `s` for printing at the cursor.
#[verifier::external_body]
fn queue_print(out: &mut std::io::Stdout, s: &str) -> (r: Result<(), std::io::Error>) {
    match out.queue(crossterm::style::Print(s)) {
        Ok(_) => Ok(()),
        Err(e) => Err(e),
    }
}

/// Relies on crossterm's `QueueableCommand::queue` with
/// `style::SetForegroundColor`: queues a change to the foreground color of
/// the same name as the palette color `c`.
#[verifier::external_body]
fn queue_set_color(out: &mut std::io::Stdout, c: Color) -> (r: Result<(), std::io::Error>) {
    let tc = match c {
        Color::Green => crossterm::style::Color::Green,
        Color::Blue => crossterm::style::Color::Blue,
        Color::White => crossterm::style::Color::White,
        Color::Yellow => crossterm::style::Color::Yellow,
        Color::Cyan => crossterm::style::Color::Cyan,
        Color::Magenta => crossterm::style::Color::Magenta,
        Color::Red => crossterm::style::Color::Red,
    };
    match out.queue(crossterm::style::SetForegroundColor(tc)) {
        Ok(_) => Ok(()),
        Err(e) => Err(e),
    }
}

/// Relies on crossterm's `QueueableCommand::queue` with
/// `style::ResetColor`: queues a reset to the default colors.
#[verifier::external_body]
fn queue_reset_color(out: &mut std::io::Stdout) -> (r: Result<(), std::io::Error>) {
    match out.queue(crossterm::style::ResetColor) {
        Ok(_) => Ok(()),
        Err(e) => Err(e),
    }
}

/// Relies on `std::io::Write::flush` for `Stdout`: hands everything queued
/// to the terminal.
#[verifier::external_body]
fn flush_stdout(out: &mut std::io::Stdout) -> (r: Result<(), std::io::Error>) {
    match out.flush() {
        Ok(_) => Ok(()),
        Err(e) => Err(e),
    }
}

} // verus!
