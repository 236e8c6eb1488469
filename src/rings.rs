//! The ring count and the radii of the nested rings.
use vstd::prelude::*;

verus! {

/// The unit of a divider: a divider of `DIVIDER_SCALE` is a radius of 1.
pub const DIVIDER_SCALE: u32 = 1_000_000;

/// Rings variants control the number of rings generated in avatars.
#[non_exhaustive]
#[derive(Debug, Clone, Copy, PartialEq, Eq, Structural, PartialOrd, Ord)]
pub enum Rings {
    /// A single ring.
    One,
    /// Two rings.
    Two,
    /// Three rings.
    Three,
    /// Four rings; this is the default.
    Four,
}

/// The number of rings that a variant stands for.
pub open spec fn ring_count(r: Rings) -> nat {
    match r {
        Rings::One => 1,
        Rings::Two => 2,
        Rings::Three => 3,
        Rings::Four => 4,
    }
}

/// The radius of each ring, outermost first, in units of `1 / DIVIDER_SCALE`.
///
/// Ring `i` of `n` lies at the mean of a square-root falloff and a linear
/// falloff, `(sqrt((n - i) / n) + (n - i) / n) / 2`, rounded to the unit; this
/// keeps the inner rings apart from the centre.
pub open spec fn dividers_spec(r: Rings) -> Seq<u32> {
    match r {
        Rings::One => seq![1_000_000u32],
        Rings::Two => seq![1_000_000u32, 603_553u32],
        Rings::Three => seq![1_000_000u32, 741_582u32, 455_342u32],
        Rings::Four => seq![1_000_000u32, 808_013u32, 603_553u32, 375_000u32],
    }
}

impl Default for Rings {
    /// Returns [`Rings::Four`].
    fn default() -> (r: Self)
        ensures
            r == Rings::Four,
    {
        Rings::Four
    }
}

impl Rings {
    /// The number of rings, from 1 to 4.
    pub fn count(&self) -> (n: usize)
        ensures
            n == ring_count(*self),
    {
        match self {
            Rings::One => 1,
            Rings::Two => 2,
            Rings::Three => 3,
            Rings::Four => 4,
        }
    }

    /// The name of the variant.
    pub fn name(&self) -> (s: &'static str)
        ensures
            s@ == match *self {
                Rings::One => "One"@,
                Rings::Two => "Two"@,
                Rings::Three => "Three"@,
                Rings::Four => "Four"@,
            },
    {
        match self {
            Rings::One => "One",
            Rings::Two => "Two",
            Rings::Three => "Three",
            Rings::Four => "Four",
        }
    }

    /// The dividers of this ring count, outermost first.
    pub fn to_dividers(&self) -> (d: Vec<u32>)
        ensures
            d@ == dividers_spec(*self),
    {
        let mut d: Vec<u32> = Vec::new();
        d.push(DIVIDER_SCALE);
        match self {
            Rings::One => {},
            Rings::Two => {
                d.push(603_553);
            },
            Rings::Three => {
                d.push(741_582);
                d.push(455_342);
            },
            Rings::Four => {
                d.push(808_013);
                d.push(603_553);
                d.push(375_000);
            },
        }
        assert(d@ =~= dividers_spec(*self));
        d
    }
}

/// Every ring count has as many dividers as rings, the first of them is the
/// full radius, and each of the others is strictly smaller than the one
/// before it.
pub proof fn lemma_dividers_decrease(r: Rings)
    ensures
        dividers_spec(r).len() == ring_count(r),
        dividers_spec(r)[0] == DIVIDER_SCALE,
        forall|i: int, j: int|
            0 <= i < j < dividers_spec(r).len() ==> dividers_spec(r)[j] < dividers_spec(r)[i],
        forall|i: int| 0 <= i < dividers_spec(r).len() ==> 0 < #[trigger] dividers_spec(r)[i] <= DIVIDER_SCALE,
{
}

} // verus!
