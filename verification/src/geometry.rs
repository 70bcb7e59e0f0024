use vstd::prelude::*;
use vstd::arithmetic::power::pow;

verus! {

use crate::color::Rgb;

/// The position and extent of one isosceles triangle, over unbounded
/// integers: apex at (x, y), base corners at (x - hw, y + h) and
/// (x + hw, y + h). The y axis grows downward, as on a canvas.
pub struct Geom {
    pub x: int,
    pub y: int,
    pub hw: int,
    pub h: int,
}

/// One drawn triangle: apex at (apex_x, apex_y), base corners at
/// (apex_x - half_width, apex_y + height) and
/// (apex_x + half_width, apex_y + height), filled with `color`.
#[derive(Clone, Copy, Debug, PartialEq, Eq, Structural)]
pub struct Triangle {
    pub apex_x: i64,
    pub apex_y: i64,
    pub half_width: i64,
    pub height: i64,
    pub color: Rgb,
}

impl Triangle {
    /// The triangle's position and extent, free of the machine word size.
    pub open spec fn geom(self) -> Geom {
        Geom {
            x: self.apex_x as int,
            y: self.apex_y as int,
            hw: self.half_width as int,
            h: self.height as int,
        }
    }

    /// The extents are non-negative and all three vertices fit in i64.
    pub open spec fn wf(self) -> bool {
        &&& 0 <= self.half_width
        &&& 0 <= self.height
        &&& i64::MIN <= self.apex_x - self.half_width
        &&& self.apex_x + self.half_width <= i64::MAX
        &&& self.apex_y + self.height <= i64::MAX
    }

    /// The three vertices, apex first, then base-left, then base-right.
    pub fn vertices(&self) -> (v: ((i64, i64), (i64, i64), (i64, i64)))
        requires
            self.wf(),
        ensures
            v.0 == (self.apex_x, self.apex_y),
            v.1.0 == self.apex_x - self.half_width,
            v.1.1 == self.apex_y + self.height,
            v.2.0 == self.apex_x + self.half_width,
            v.2.1 == self.apex_y + self.height,
    {
        (
            (self.apex_x, self.apex_y),
            (self.apex_x - self.half_width, self.apex_y + self.height),
            (self.apex_x + self.half_width, self.apex_y + self.height),
        )
    }
}

/// The child triangle that keeps the parent's apex.
pub open spec fn child_top(g: Geom) -> Geom {
    Geom { x: g.x, y: g.y, hw: g.hw / 2, h: g.h / 2 }
}

/// The child triangle whose apex sits halfway down the parent's right edge.
pub open spec fn child_right(g: Geom) -> Geom {
    Geom { x: g.x + g.hw / 2, y: g.y + g.h / 2, hw: g.hw / 2, h: g.h / 2 }
}

/// The child triangle whose apex sits halfway down the parent's left edge.
pub open spec fn child_left(g: Geom) -> Geom {
    Geom { x: g.x - g.hw / 2, y: g.y + g.h / 2, hw: g.hw / 2, h: g.h / 2 }
}

/// The geometries drawn by one call: the triangle itself first, then,
/// while depth remains, the three half-extent subdivisions — apex kept,
/// apex shifted right and down, apex shifted left and down — each
/// expanded in full, in that order.
pub open spec fn sierpinski_seq(g: Geom, depth: nat) -> Seq<Geom>
    decreases depth,
{
    if depth == 0 {
        seq![g]
    } else {
        seq![g] + sierpinski_seq(child_top(g), (depth - 1) as nat)
            + sierpinski_seq(child_right(g), (depth - 1) as nat)
            + sierpinski_seq(child_left(g), (depth - 1) as nat)
    }
}

/// How many triangles a call at this depth draws.
pub open spec fn tri_count(depth: nat) -> nat
    decreases depth,
{
    if depth == 0 {
        1
    } else {
        1 + 3 * tri_count((depth - 1) as nat)
    }
}

/// The geometries of a sequence of drawn triangles.
pub open spec fn geoms(ts: Seq<Triangle>) -> Seq<Geom> {
    ts.map_values(|t: Triangle| t.geom())
}

/// The triangles drawn at depth D form a perfect ternary tree of height
/// D + 1, so their number is (3^(D+1) - 1) / 2.
pub proof fn lemma_tri_count_closed_form(depth: nat)
    ensures
        2 * tri_count(depth) + 1 == pow(3, depth + 1),
        tri_count(depth) == (pow(3, depth + 1) - 1) / 2,
    decreases depth,
{
    vstd::arithmetic::power::lemma_pow1(3);
    if depth == 0 {
        vstd::arithmetic::power::lemma_pow0(3);
        vstd::arithmetic::power::lemma_pow_adds(3, 0, 1);
    } else {
        lemma_tri_count_closed_form((depth - 1) as nat);
        vstd::arithmetic::power::lemma_pow_adds(3, depth, 1);
        assert(pow(3, depth + 1) == pow(3, depth) * 3);
    }
}

/// One call contributes exactly tri_count(depth) geometries.
pub proof fn lemma_sierpinski_seq_len(g: Geom, depth: nat)
    ensures
        sierpinski_seq(g, depth).len() == tri_count(depth),
    decreases depth,
{
    if depth > 0 {
        lemma_sierpinski_seq_len(child_top(g), (depth - 1) as nat);
        lemma_sierpinski_seq_len(child_right(g), (depth - 1) as nat);
        lemma_sierpinski_seq_len(child_left(g), (depth - 1) as nat);
    }
}

/// While depth remains, subdivision places the child apexes at exactly
/// (x, y), (x + hw/2, y + h/2) and (x - hw/2, y + h/2) relative to the
/// parent (x, y, hw, h), each child at half the parent's extent.
pub proof fn lemma_children(g: Geom, depth: nat)
    requires
        0 < depth,
    ensures
        sierpinski_seq(g, depth) == seq![g]
            + sierpinski_seq(child_top(g), (depth - 1) as nat)
            + sierpinski_seq(child_right(g), (depth - 1) as nat)
            + sierpinski_seq(child_left(g), (depth - 1) as nat),
        child_top(g) == (Geom { x: g.x, y: g.y, hw: g.hw / 2, h: g.h / 2 }),
        child_right(g) == (Geom {
            x: g.x + g.hw / 2,
            y: g.y + g.h / 2,
            hw: g.hw / 2,
            h: g.h / 2,
        }),
        child_left(g) == (Geom {
            x: g.x - g.hw / 2,
            y: g.y + g.h / 2,
            hw: g.hw / 2,
            h: g.h / 2,
        }),
{
}

/// Mapping to geometries commutes with appending one triangle.
pub proof fn lemma_geoms_push(ts: Seq<Triangle>, t: Triangle)
    ensures
        geoms(ts.push(t)) == geoms(ts).push(t.geom()),
{
    assert(geoms(ts.push(t)) =~= geoms(ts).push(t.geom()));
}

} // verus!
