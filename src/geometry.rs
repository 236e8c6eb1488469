//! The eight pie-slice sectors that every ring is made of.
use vstd::prelude::*;
use vstd::string::StringExecFns;
use crate::text::{fixed_text, push_fixed};

verus! {

/// The unit of a direction component: `DIRECTION_SCALE` stands for 1.
pub const DIRECTION_SCALE: i32 = 1_000_000;

/// `1 / sqrt(2)` in units of `1 / DIRECTION_SCALE`, rounded.
pub const FRAC_1_SQRT_2: i32 = 707_107;

/// One sector of a ring: the end of its straight edge and the end of its arc,
/// on the unit circle, in units of `1 / DIRECTION_SCALE`.
#[derive(Debug, Clone, Copy, PartialEq, Eq, Structural)]
pub struct PathProperties {
    pub line_x: i32,
    pub line_y: i32,
    pub arc_x: i32,
    pub arc_y: i32,
}

/// Sector `i` spans the directions from `-90 + 45 i` to `-45 + 45 i`
/// degrees, clockwise on screen, starting at the top.
pub open spec fn sector_spec(i: int) -> PathProperties {
    let c = DIRECTION_SCALE;
    let h = FRAC_1_SQRT_2;
    if i == 0 {
        PathProperties { line_x: 0, line_y: (-c) as i32, arc_x: h, arc_y: (-h) as i32 }
    } else if i == 1 {
        PathProperties { line_x: h, line_y: (-h) as i32, arc_x: c, arc_y: 0 }
    } else if i == 2 {
        PathProperties { line_x: c, line_y: 0, arc_x: h, arc_y: h }
    } else if i == 3 {
        PathProperties { line_x: h, line_y: h, arc_x: 0, arc_y: c }
    } else if i == 4 {
        PathProperties { line_x: 0, line_y: c, arc_x: (-h) as i32, arc_y: h }
    } else if i == 5 {
        PathProperties { line_x: (-h) as i32, line_y: h, arc_x: (-c) as i32, arc_y: 0 }
    } else if i == 6 {
        PathProperties { line_x: (-c) as i32, line_y: 0, arc_x: (-h) as i32, arc_y: (-h) as i32 }
    } else {
        PathProperties { line_x: (-h) as i32, line_y: (-h) as i32, arc_x: 0, arc_y: (-c) as i32 }
    }
}

/// The arc of each sector ends where the straight edge of the next one
/// begins, so that the eight slices close up into a full circle.
pub proof fn lemma_sectors_adjoin(i: int)
    requires
        0 <= i < 8,
    ensures
        sector_spec(i).arc_x == sector_spec((i + 1) % 8).line_x,
        sector_spec(i).arc_y == sector_spec((i + 1) % 8).line_y,
{
}

/// A direction component times a divider fits in an `i64`.
proof fn lemma_scaled_fits(c: i32, divider: u32)
    ensures
        i64::MIN <= c * divider <= i64::MAX,
{
    assert(-0x8000_0000 * 0x1_0000_0000 <= c * divider < 0x8000_0000 * 0x1_0000_0000) by (nonlinear_arith)
        requires
            -0x8000_0000 <= c < 0x8000_0000,
            0 <= divider < 0x1_0000_0000,
    ;
}

impl PathProperties {
    /// The sector with index `index`, from 0 to 7.
    pub fn sector(index: usize) -> (p: PathProperties)
        requires
            index < 8,
        ensures
            p == sector_spec(index as int),
    {
        let c = DIRECTION_SCALE;
        let h = FRAC_1_SQRT_2;
        if index == 0 {
            PathProperties { line_x: 0, line_y: -c, arc_x: h, arc_y: -h }
        } else if index == 1 {
            PathProperties { line_x: h, line_y: -h, arc_x: c, arc_y: 0 }
        } else if index == 2 {
            PathProperties { line_x: c, line_y: 0, arc_x: h, arc_y: h }
        } else if index == 3 {
            PathProperties { line_x: h, line_y: h, arc_x: 0, arc_y: c }
        } else if index == 4 {
            PathProperties { line_x: 0, line_y: c, arc_x: -h, arc_y: h }
        } else if index == 5 {
            PathProperties { line_x: -h, line_y: h, arc_x: -c, arc_y: 0 }
        } else if index == 6 {
            PathProperties { line_x: -c, line_y: 0, arc_x: -h, arc_y: -h }
        } else {
            PathProperties { line_x: -h, line_y: -h, arc_x: 0, arc_y: -c }
        }
    }

    /// The x of the straight edge's end, scaled by `divider`; the result is
    /// in units of `1 / (DIRECTION_SCALE * DIVIDER_SCALE)`.
    pub fn line_x(&self, divider: u32) -> (r: i64)
        ensures
            r == self.line_x * divider,
    {
        proof {
            lemma_scaled_fits(self.line_x, divider);
        }
        (self.line_x as i64) * (divider as i64)
    }

    /// The y of the straight edge's end, scaled by `divider`.
    pub fn line_y(&self, divider: u32) -> (r: i64)
        ensures
            r == self.line_y * divider,
    {
        proof {
            lemma_scaled_fits(self.line_y, divider);
        }
        (self.line_y as i64) * (divider as i64)
    }

    /// The x of the arc's end, scaled by `divider`.
    pub fn arc_x(&self, divider: u32) -> (r: i64)
        ensures
            r == self.arc_x * divider,
    {
        proof {
            lemma_scaled_fits(self.arc_x, divider);
        }
        (self.arc_x as i64) * (divider as i64)
    }

    /// The y of the arc's end, scaled by `divider`.
    pub fn arc_y(&self, divider: u32) -> (r: i64)
        ensures
            r == self.arc_y * divider,
    {
        proof {
            lemma_scaled_fits(self.arc_y, divider);
        }
        (self.arc_y as i64) * (divider as i64)
    }
}

/// The drawing commands of a sector of the ring with radius `divider`: from
/// the centre to the end of the straight edge, along the clockwise arc to
/// its end, and back to the centre. Coordinates carry twelve decimals and
/// the radius six.
pub open spec fn path_data_spec(p: PathProperties, divider: u32) -> Seq<char> {
    "M0,0 L"@ + fixed_text(p.line_x * divider, 12) + ","@ + fixed_text(p.line_y * divider, 12)
        + " A"@ + fixed_text(divider as int, 6) + ","@ + fixed_text(divider as int, 6)
        + ",0,0,1,"@ + fixed_text(p.arc_x * divider, 12) + ","@ + fixed_text(p.arc_y * divider, 12)
        + " z"@
}

/// Writes the drawing commands of sector `p` on the ring with radius `divider`.
pub fn path_data(p: &PathProperties, divider: u32) -> (d: String)
    ensures
        d@ == path_data_spec(*p, divider),
{
    let mut d = String::from_str("M0,0 L");
    push_fixed(&mut d, p.line_x(divider), 12);
    d.append(",");
    push_fixed(&mut d, p.line_y(divider), 12);
    d.append(" A");
    push_fixed(&mut d, divider as i64, 6);
    d.append(",");
    push_fixed(&mut d, divider as i64, 6);
    d.append(",0,0,1,");
    push_fixed(&mut d, p.arc_x(divider), 12);
    d.append(",");
    push_fixed(&mut d, p.arc_y(divider), 12);
    d.append(" z");
    d
}

} // verus!
