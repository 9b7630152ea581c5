//! The `Bouncer` state machine: position, velocity, color, bounds and
//! symbol mode, with the per-tick physics update, resize clamping, and the
//! mode/color mutators.

use vstd::prelude::*;

use crate::geometry::SymbolMode;
use crate::geometry::dimensions;
use crate::geometry::spec_height;
use crate::geometry::spec_width;

verus! {

/// The closed palette of display colors. A color is chosen uniformly at
/// random on each collision and on explicit user request.
#[derive(Debug, Clone, Copy, PartialEq, Eq, Structural)]
pub enum Color {
    Green,
    Blue,
    White,
    Yellow,
    Cyan,
    Magenta,
    Red,
}

/// The animated glyph's state.
///
/// `(x, y)` is the top-left character cell of the glyph's bounding box and
/// `(prev_x, prev_y)` the position rendered by the last draw, kept so the
/// next draw can erase it. `(max_x, max_y)` is the last known usable
/// extent, as an inclusive upper coordinate on each axis. Velocity is a
/// unit step per tick on each axis (see [`Bouncer::wf`]).
pub struct Bouncer {
    pub x: u16,
    pub y: u16,
    pub prev_x: u16,
    pub prev_y: u16,
    pub dx: i32,
    pub dy: i32,
    pub color: Color,
    pub max_x: u16,
    pub max_y: u16,
    pub mode: SymbolMode,
}

/// True when a step from `pos` with velocity `d` collides with an edge of
/// the axis, for a glyph of length `len` on an axis whose largest usable
/// coordinate is `max_c`.
pub open spec fn axis_collides(pos: int, d: int, len: int, max_c: int) -> bool {
    pos + d <= 0 || pos + d + len >= max_c
}

/// Position on one axis after a physics step: the candidate `pos + d`,
/// clamped to `0` at the low edge and to `max_c - len` (never below `0`)
/// at the high edge. The low edge is checked first; at most one clamp
/// fires per step.
pub open spec fn stepped_pos(pos: int, d: int, len: int, max_c: int) -> int {
    let n = pos + d;
    if n <= 0 {
        0
    } else if n + len >= max_c {
        if max_c - len > 0 {
            max_c - len
        } else {
            0
        }
    } else {
        n
    }
}

/// Velocity on one axis after a physics step: negated exactly on collision.
pub open spec fn stepped_vel(pos: int, d: int, len: int, max_c: int) -> int {
    if axis_collides(pos, d, len, max_c) {
        -d
    } else {
        d
    }
}

/// Position on one axis after a resize clamp: unchanged while the glyph's
/// span stays strictly inside, else pulled back to `max_c - len`, never
/// below `0`.
pub open spec fn clamped_pos(pos: int, len: int, max_c: int) -> int {
    if pos + len >= max_c {
        if max_c - len > 0 {
            max_c - len
        } else {
            0
        }
    } else {
        pos
    }
}

/// The padding that biases the random start away from the edges: the
/// terminal extent minus the reserved margin, but at least 5 cells. The
/// random starting coordinate on that axis lies in `[2, pad + 1]`.
pub open spec fn start_pad(extent: int, margin: int) -> int {
    if extent - margin > 5 {
        extent - margin
    } else {
        5
    }
}

/// The cyclic order over the selectable modes: small snowflake, large
/// snowflake, primary logo, back to the small snowflake. The two modes
/// entered only by explicit setters are one-way excursions: cycling from
/// either always returns to the small snowflake rather than continuing
/// any sequence.
pub open spec fn next_mode(mode: SymbolMode) -> SymbolMode {
    match mode {
        SymbolMode::SnowflakeSmall => SymbolMode::SnowflakeLarge,
        SymbolMode::SnowflakeLarge => SymbolMode::NixOS,
        SymbolMode::NixOS => SymbolMode::SnowflakeSmall,
        SymbolMode::MiddleFinger => SymbolMode::SnowflakeSmall,
        SymbolMode::Arch => SymbolMode::SnowflakeSmall,
    }
}

/// Law: a physics step keeps the glyph's bounding box inside `[0, max_c]`
/// on every axis the glyph fits on, whatever the starting position.
pub proof fn lemma_step_in_bounds(pos: int, d: int, len: int, max_c: int)
    requires
        0 <= len <= max_c,
    ensures
        0 <= stepped_pos(pos, d, len, max_c),
        stepped_pos(pos, d, len, max_c) + len <= max_c,
{
}

/// Law: a resize clamp keeps the glyph's bounding box inside `[0, max_c]`
/// on every axis the glyph fits on, whatever the starting position.
pub proof fn lemma_clamp_in_bounds(pos: int, len: int, max_c: int)
    requires
        0 <= pos,
        0 <= len <= max_c,
    ensures
        0 <= clamped_pos(pos, len, max_c),
        clamped_pos(pos, len, max_c) + len <= max_c,
{
}

/// Law: the post-step position and velocity are a pure function of the
/// pre-step position, velocity, mode and bounds alone; randomness affects
/// only the color.
pub proof fn lemma_update_deterministic(a: Bouncer, b: Bouncer)
    requires
        a.x == b.x,
        a.y == b.y,
        a.dx == b.dx,
        a.dy == b.dy,
        a.mode == b.mode,
        a.max_x == b.max_x,
        a.max_y == b.max_y,
    ensures
        stepped_pos(a.x as int, a.dx as int, spec_width(a.mode), a.max_x as int)
            == stepped_pos(b.x as int, b.dx as int, spec_width(b.mode), b.max_x as int),
        stepped_pos(a.y as int, a.dy as int, spec_height(a.mode), a.max_y as int)
            == stepped_pos(b.y as int, b.dy as int, spec_height(b.mode), b.max_y as int),
        stepped_vel(a.x as int, a.dx as int, spec_width(a.mode), a.max_x as int)
            == stepped_vel(b.x as int, b.dx as int, spec_width(b.mode), b.max_x as int),
        stepped_vel(a.y as int, a.dy as int, spec_height(a.mode), a.max_y as int)
            == stepped_vel(b.y as int, b.dy as int, spec_height(b.mode), b.max_y as int),
{
}

/// `pos` pulled back so a glyph of length `len` ends at or before `max_c`
/// (the executable form of [`clamped_pos`]).
fn clamp_axis(pos: u16, len: u16, max_c: u16) -> (r: u16)
    ensures
        r as int == clamped_pos(pos as int, len as int, max_c as int),
{
    if pos as u32 + len as u32 >= max_c as u32 {
        if max_c > len {
            max_c - len
        } else {
            0
        }
    } else {
        pos
    }
}

impl Bouncer {
    /// Well-formedness: velocity is exactly one cell per tick on each axis.
    pub open spec fn wf(self) -> bool {
        &&& (self.dx == 1 || self.dx == -1)
        &&& (self.dy == 1 || self.dy == -1)
    }

    /// Builds the initial state for a terminal of `cols` columns and
    /// `rows` rows: bounds are the largest usable coordinates, the mode is
    /// the largest glyph, the color is blue, the starting position is
    /// random with a padding away from the edges and then clamped so the
    /// whole bounding box is on-screen whenever it fits, and each velocity
    /// component is `+1` or `-1` with equal probability.
    pub fn new(cols: u16, rows: u16) -> (b: Bouncer)
        ensures
            b.wf(),
            b.max_x as int == if cols > 0 { cols as int - 1 } else { 0int },
            b.max_y as int == if rows > 0 { rows as int - 1 } else { 0int },
            b.mode == SymbolMode::NixOS,
            b.color == Color::Blue,
            b.prev_x == b.x,
            b.prev_y == b.y,
            spec_width(b.mode) <= b.max_x as int ==> b.x as int + spec_width(b.mode) <= b.max_x as int,
            spec_height(b.mode) <= b.max_y as int ==> b.y as int + spec_height(b.mode) <= b.max_y as int,
            exists|c: int|
                2 <= c <= start_pad(cols as int, 50) + 1 && b.x as int == clamped_pos(
                    c,
                    spec_width(b.mode),
                    b.max_x as int,
                ),
            exists|c: int|
                2 <= c <= start_pad(rows as int, 25) + 1 && b.y as int == clamped_pos(
                    c,
                    spec_height(b.mode),
                    b.max_y as int,
                ),
    {
        let max_x: u16 = if cols > 0 { cols - 1 } else { 0 };
        let max_y: u16 = if rows > 0 { rows - 1 } else { 0 };

        // Padding that biases the start away from the edges; at least 5
        // cells of head room even on narrow terminals.
        let pad_x: i64 = if cols as i64 - 50 > 5 { cols as i64 - 50 } else { 5 };
        let pad_y: i64 = if rows as i64 - 25 > 5 { rows as i64 - 25 } else { 5 };

        let raw_x: i32 = rand::random::<i32>();
        let raw_y: i32 = rand::random::<i32>();
        let abs_x: i64 = if raw_x < 0 { -(raw_x as i64) } else { raw_x as i64 };
        let abs_y: i64 = if raw_y < 0 { -(raw_y as i64) } else { raw_y as i64 };
        let cand_x: i64 = abs_x % pad_x + 2;
        let cand_y: i64 = abs_y % pad_y + 2;

        // Keep the whole initial bounding box on-screen when the terminal
        // is barely large enough for it.
        let (w, h) = dimensions(SymbolMode::NixOS);
        let start_x: u16 = clamp_axis(cand_x as u16, w, max_x);
        let start_y: u16 = clamp_axis(cand_y as u16, h, max_y);

        let b = Bouncer {
            x: start_x,
            y: start_y,
            prev_x: start_x,
            prev_y: start_y,
            dx: if rand::random::<bool>() { 1 } else { -1 },
            dy: if rand::random::<bool>() { 1 } else { -1 },
            color: Color::Blue,
            max_x,
            max_y,
            mode: SymbolMode::NixOS,
        };
        proof {
            // The candidates witness the documented starting bias: each
            // lies in [2, pad + 1] and the stored coordinate is exactly
            // its on-screen clamp.
            assert(2 <= cand_x as int <= start_pad(cols as int, 50) + 1 && b.x as int
                == clamped_pos(cand_x as int, spec_width(b.mode), b.max_x as int));
            assert(2 <= cand_y as int <= start_pad(rows as int, 25) + 1 && b.y as int
                == clamped_pos(cand_y as int, spec_height(b.mode), b.max_y as int));
        }
        b
    }

    /// Advances to the next mode in the cyclic order (see [`next_mode`]).
    /// The position is not re-clamped here: a switch to a larger glyph is
    /// corrected only by the following resize or collision check.
    pub fn cycle_symbol(&mut self)
        ensures
            *final(self) == (Bouncer { mode: next_mode(old(self).mode), ..*old(self) }),
    {
        self.mode = match self.mode {
            SymbolMode::SnowflakeSmall => SymbolMode::SnowflakeLarge,
            SymbolMode::SnowflakeLarge => SymbolMode::NixOS,
            SymbolMode::NixOS => SymbolMode::SnowflakeSmall,
            SymbolMode::MiddleFinger => SymbolMode::SnowflakeSmall,
            SymbolMode::Arch => SymbolMode::SnowflakeSmall,
        };
    }

    /// Picks a uniformly random color from the palette, excluding none:
    /// a repeat of the current color is allowed. Only the color changes.
    pub fn cycle_color(&mut self)
        ensures
            *final(self) == (Bouncer { color: final(self).color, ..*old(self) }),
    {
        let colors: [Color; 7] = [
            Color::Green,
            Color::Blue,
            Color::White,
            Color::Yellow,
            Color::Cyan,
            Color::Magenta,
            Color::Red,
        ];
        let i: usize = rand::random::<usize>() % 7;
        self.color = colors[i];
    }

    /// Internal recolor on collision: the same pick as [`Self::cycle_color`].
    fn change_color(&mut self)
        ensures
            *final(self) == (Bouncer { color: final(self).color, ..*old(self) }),
    {
        self.cycle_color();
    }

    /// Switches to the gesture glyph (a one-way excursion from the cycle).
    pub fn set_middle_finger(&mut self)
        ensures
            *final(self) == (Bouncer { mode: SymbolMode::MiddleFinger, ..*old(self) }),
    {
        self.mode = SymbolMode::MiddleFinger;
    }

    /// Switches to the alternate logo glyph.
    pub fn set_arch(&mut self)
        ensures
            *final(self) == (Bouncer { mode: SymbolMode::Arch, ..*old(self) }),
    {
        self.mode = SymbolMode::Arch;
    }

    /// One physics tick: remembers the current position for erasing, steps
    /// each axis by its velocity, and on collision clamps to the edge,
    /// reverses that axis and recolors. The new position and velocity are
    /// a pure function of the old state ([`stepped_pos`], [`stepped_vel`]);
    /// only the color depends on the random draw, and only on collision.
    pub fn update(&mut self)
        requires
            old(self).wf(),
        ensures
            final(self).wf(),
            final(self).prev_x == old(self).x,
            final(self).prev_y == old(self).y,
            final(self).x as int == stepped_pos(
                old(self).x as int,
                old(self).dx as int,
                spec_width(old(self).mode),
                old(self).max_x as int,
            ),
            final(self).y as int == stepped_pos(
                old(self).y as int,
                old(self).dy as int,
                spec_height(old(self).mode),
                old(self).max_y as int,
            ),
            final(self).dx as int == stepped_vel(
                old(self).x as int,
                old(self).dx as int,
                spec_width(old(self).mode),
                old(self).max_x as int,
            ),
            final(self).dy as int == stepped_vel(
                old(self).y as int,
                old(self).dy as int,
                spec_height(old(self).mode),
                old(self).max_y as int,
            ),
            final(self).mode == old(self).mode,
            final(self).max_x == old(self).max_x,
            final(self).max_y == old(self).max_y,
            !axis_collides(
                old(self).x as int,
                old(self).dx as int,
                spec_width(old(self).mode),
                old(self).max_x as int,
            ) && !axis_collides(
                old(self).y as int,
                old(self).dy as int,
                spec_height(old(self).mode),
                old(self).max_y as int,
            ) ==> final(self).color == old(self).color,
            spec_width(old(self).mode) <= old(self).max_x as int
                ==> final(self).x as int + spec_width(old(self).mode) <= final(self).max_x as int,
            spec_height(old(self).mode) <= old(self).max_y as int
                ==> final(self).y as int + spec_height(old(self).mode) <= final(self).max_y as int,
    {
        // Save the rendered position so the next draw can erase it.
        self.prev_x = self.x;
        self.prev_y = self.y;

        // Candidate position in signed arithmetic wide enough not to wrap.
        let mut nx: i32 = self.x as i32 + self.dx;
        let mut ny: i32 = self.y as i32 + self.dy;

        let (w, h) = dimensions(self.mode);
        let wi: i32 = w as i32;
        let hi: i32 = h as i32;

        // Bounce on the x axis; the low edge wins when both edges are hit.
        if nx <= 0 {
            nx = 0;
            self.dx = -self.dx;
            self.change_color();
        } else if nx + wi >= self.max_x as i32 {
            let edge: i32 = self.max_x as i32 - wi;
            nx = if edge > 0 { edge } else { 0 };
            self.dx = -self.dx;
            self.change_color();
        }

        // Bounce on the y axis, with its own independent color draw.
        if ny <= 0 {
            ny = 0;
            self.dy = -self.dy;
            self.change_color();
        } else if ny + hi >= self.max_y as i32 {
            let edge: i32 = self.max_y as i32 - hi;
            ny = if edge > 0 { edge } else { 0 };
            self.dy = -self.dy;
            self.change_color();
        }

        self.x = nx as u16;
        self.y = ny as u16;
    }

    /// Adopts a new terminal extent of `w` columns and `h` rows and pulls
    /// the glyph back inside it. Both the current position and the
    /// previously rendered one are clamped by the identical rule, so the
    /// next draw never erases outside the new bounds.
    pub fn resize(&mut self, w: u16, h: u16)
        ensures
            final(self).max_x as int == if w > 0 { w as int - 1 } else { 0int },
            final(self).max_y as int == if h > 0 { h as int - 1 } else { 0int },
            final(self).x as int == clamped_pos(
                old(self).x as int,
                spec_width(old(self).mode),
                final(self).max_x as int,
            ),
            final(self).y as int == clamped_pos(
                old(self).y as int,
                spec_height(old(self).mode),
                final(self).max_y as int,
            ),
            final(self).prev_x as int == clamped_pos(
                old(self).prev_x as int,
                spec_width(old(self).mode),
                final(self).max_x as int,
            ),
            final(self).prev_y as int == clamped_pos(
                old(self).prev_y as int,
                spec_height(old(self).mode),
                final(self).max_y as int,
            ),
            final(self).dx == old(self).dx,
            final(self).dy == old(self).dy,
            final(self).color == old(self).color,
            final(self).mode == old(self).mode,
            spec_width(old(self).mode) <= final(self).max_x as int ==> {
                &&& final(self).x as int + spec_width(old(self).mode) <= final(self).max_x as int
                &&& final(self).prev_x as int + spec_width(old(self).mode) <= final(self).max_x as int
            },
            spec_height(old(self).mode) <= final(self).max_y as int ==> {
                &&& final(self).y as int + spec_height(old(self).mode) <= final(self).max_y as int
                &&& final(self).prev_y as int + spec_height(old(self).mode) <= final(self).max_y as int
            },
    {
        self.max_x = if w > 0 { w - 1 } else { 0 };
        self.max_y = if h > 0 { h - 1 } else { 0 };

        let (lw, lh) = dimensions(self.mode);

        self.x = clamp_axis(self.x, lw, self.max_x);
        self.y = clamp_axis(self.y, lh, self.max_y);
        self.prev_x = clamp_axis(self.prev_x, lw, self.max_x);
        self.prev_y = clamp_axis(self.prev_y, lh, self.max_y);
    }
}

impl Default for Bouncer {
    /// The state for the documented fallback terminal extent of 80 by 24
    /// cells, as built by [`Bouncer::new`].
    fn default() -> (b: Bouncer)
        ensures
            b.wf(),
            b.max_x == 79,
            b.max_y == 23,
            b.mode == SymbolMode::NixOS,
            b.color == Color::Blue,
            b.x + 46 <= 79,
            b.y + 19 <= 23,
            b.prev_x == b.x,
            b.prev_y == b.y,
    {
        Bouncer::new(80, 24)
    }
}

} // verus!
