//! Positions on the character grid and the panel rectangle.

use vstd::prelude::*;
use vstd::std_specs::ops::{AddSpecImpl, SubSpecImpl};

verus! {

/// Whether `v` can be held in an `i32`.
pub open spec fn fits_i32(v: int) -> bool {
    i32::MIN <= v <= i32::MAX
}

/// A cell of the character grid: column first, row second. Rows grow downward.
#[derive(Debug, PartialEq, Eq, Clone, Copy, Structural)]
pub struct Pos(pub i32, pub i32);

impl Pos {
    /// The position with the given column and row.
    pub open spec fn at(col: int, row: int) -> Pos
        recommends
            fits_i32(col),
            fits_i32(row),
    {
        Pos(col as i32, row as i32)
    }

    /// This position moved by `dx` columns and `dy` rows.
    pub open spec fn shifted(self, dx: int, dy: int) -> Pos
        recommends
            fits_i32(self.0 + dx),
            fits_i32(self.1 + dy),
    {
        Pos::at(self.0 + dx, self.1 + dy)
    }
}

impl AddSpecImpl for Pos {
    open spec fn obeys_add_spec() -> bool {
        true
    }

    open spec fn add_req(self, rhs: Pos) -> bool {
        fits_i32(self.0 + rhs.0) && fits_i32(self.1 + rhs.1)
    }

    open spec fn add_spec(self, rhs: Pos) -> Pos {
        self.shifted(rhs.0 as int, rhs.1 as int)
    }
}

impl core::ops::Add for Pos {
    type Output = Pos;

    /// Component-wise sum.
    fn add(self, rhs: Pos) -> Pos {
        Pos(self.0 + rhs.0, self.1 + rhs.1)
    }
}

impl SubSpecImpl for Pos {
    open spec fn obeys_sub_spec() -> bool {
        true
    }

    open spec fn sub_req(self, rhs: Pos) -> bool {
        fits_i32(self.0 - rhs.0) && fits_i32(self.1 - rhs.1)
    }

    open spec fn sub_spec(self, rhs: Pos) -> Pos {
        self.shifted(-(rhs.0 as int), -(rhs.1 as int))
    }
}

impl core::ops::Sub for Pos {
    type Output = Pos;

    /// Component-wise difference.
    fn sub(self, rhs: Pos) -> Pos {
        Pos(self.0 - rhs.0, self.1 - rhs.1)
    }
}

/// Half of `d`, rounded toward zero.
pub open spec fn half_toward_zero(d: int) -> int {
    if d >= 0 {
        d / 2
    } else {
        -((-d) / 2)
    }
}

/// The bordered panel: its top-left border cell and the size of its interior.
#[derive(Debug, Clone, Copy)]
pub struct Screen {
    pub y: i32,
    pub x: i32,
    pub width: i32,
    pub height: i32,
}

impl Screen {
    /// A panel has a positive width and a positive height.
    pub open spec fn wf(self) -> bool {
        self.width > 0 && self.height > 0
    }

    /// Whether `pos` is an interior cell of the panel: between the two
    /// border columns and between the two border rows.
    pub open spec fn encloses(self, pos: Pos) -> bool {
        self.x < pos.0 <= self.x + self.width && 0 < pos.1 < self.height
    }

    /// The column at which a panel of this width is centered on a terminal
    /// that is `terminal_width` cells wide.
    pub open spec fn centered_column(self, terminal_width: int) -> int {
        half_toward_zero(terminal_width - self.width)
    }

    /// Centers the panel horizontally on a terminal of the given width.
    pub fn center(&mut self, terminal_width: i32)
        requires
            fits_i32(terminal_width - old(self).width),
        ensures
            final(self).x == old(self).centered_column(terminal_width as int),
            final(self).y == old(self).y,
            final(self).width == old(self).width,
            final(self).height == old(self).height,
    {
        let d: i32 = terminal_width - self.width;
        self.x = d / 2;
    }
}

} // verus!
