use vstd::prelude::*;
use vstd::arithmetic::power2::pow2;
use vstd::arithmetic::power2::lemma_pow2_unfold;
use vstd::arithmetic::power2::lemma_pow2_strictly_increases;
use vstd::arithmetic::power2::lemma2_to64;

verus! {

use crate::color::{valid_rgb, random_rgb};
use crate::geometry::{
    Geom, Triangle, child_top, child_right, child_left, sierpinski_seq, tri_count, geoms,
    lemma_geoms_push,
};

/// Largest magnitude accepted for an anchor coordinate or an extent, in
/// surface units: 2^30. Together with `MAX_DEPTH` it keeps every scaled
/// coordinate well inside i64.
pub const MAX_EXTENT: i64 = 0x4000_0000;

/// Deepest accepted recursion. At this depth the scale factor is 2^30.
pub const MAX_DEPTH: u32 = 30;

/// Draw one triangle in a fresh independent random color, then, while
/// depth remains, recurse into the three half-extent children: apex
/// kept, apex shifted right and down, apex shifted left and down — in
/// that order. Appends to `out`; coordinates are taken as given.
pub fn sierpinski(out: &mut Vec<Triangle>, x: i64, y: i64, hw: i64, h: i64, depth: u32)
    requires
        0 <= hw,
        0 <= h,
        i64::MIN <= x - hw,
        x + hw <= i64::MAX,
        y + h <= i64::MAX,
    ensures
        final(out)@.len() == old(out)@.len() + tri_count(depth as nat),
        forall|i: int| 0 <= i < old(out)@.len() ==> final(out)@[i] == old(out)@[i],
        geoms(final(out)@) == geoms(old(out)@) + sierpinski_seq(
            (Geom { x: x as int, y: y as int, hw: hw as int, h: h as int }),
            depth as nat,
        ),
        forall|i: int|
            old(out)@.len() <= i < final(out)@.len() ==> valid_rgb(#[trigger] final(out)@[i].color)
                && final(out)@[i].wf(),
    decreases depth,
{
    let ghost pre = out@;
    let ghost g = Geom { x: x as int, y: y as int, hw: hw as int, h: h as int };
    let color = random_rgb();
    let t = Triangle { apex_x: x, apex_y: y, half_width: hw, height: h, color };
    out.push(t);
    proof {
        lemma_geoms_push(pre, t);
    }
    if depth > 0 {
        let chw: i64 = hw / 2;
        let chh: i64 = h / 2;
        sierpinski(out, x, y, chw, chh, depth - 1);
        sierpinski(out, x + chw, y + chh, chw, chh, depth - 1);
        sierpinski(out, x - chw, y + chh, chw, chh, depth - 1);
        proof {
            let d1 = (depth - 1) as nat;
            let s1 = sierpinski_seq(child_top(g), d1);
            let s2 = sierpinski_seq(child_right(g), d1);
            let s3 = sierpinski_seq(child_left(g), d1);
            assert(sierpinski_seq(g, depth as nat) == seq![g] + s1 + s2 + s3);
            assert(geoms(out@) =~= geoms(pre) + sierpinski_seq(g, depth as nat));
        }
    } else {
        proof {
            assert(geoms(out@) =~= geoms(pre) + sierpinski_seq(g, depth as nat));
        }
    }
}

/// 2^e, computed by repeated doubling.
fn pow2_i64(e: u32) -> (r: i64)
    requires
        e <= 30,
    ensures
        r == pow2(e as nat),
        1 <= r <= 0x4000_0000,
{
    let mut r: i64 = 1;
    let mut i: u32 = 0;
    proof {
        lemma2_to64();
    }
    while i < e
        invariant
            i <= e,
            e <= 30,
            r == pow2(i as nat),
            pow2(30) == 0x4000_0000,
        decreases e - i,
    {
        proof {
            lemma_pow2_strictly_increases(i as nat, 30);
            lemma_pow2_unfold((i + 1) as nat);
        }
        r = r * 2;
        i = i + 1;
    }
    proof {
        if (e as nat) < 30 {
            lemma_pow2_strictly_increases(e as nat, 30);
        }
        vstd::arithmetic::power2::lemma_pow2_pos(e as nat);
    }
    r
}

/// The magnitude of a scaled coordinate stays at or below 2^60.
proof fn lemma_scale_bound(v: int, s: int)
    requires
        -0x4000_0000 <= v <= 0x4000_0000,
        0 <= s <= 0x4000_0000,
    ensures
        -0x1000_0000_0000_0000 <= v * s <= 0x1000_0000_0000_0000,
{
    assert(-0x1000_0000_0000_0000 <= v * s <= 0x1000_0000_0000_0000) by (nonlinear_arith)
        requires
            -0x4000_0000 <= v <= 0x4000_0000,
            0 <= s <= 0x4000_0000,
    ;
}

/// One full rendering pass. The triangle coordinates are in subunits of
/// 1/scale of a surface unit, with scale = 2^depth, so that halving the
/// extents at every level stays exact.
pub struct Rendering {
    pub scale: i64,
    pub triangles: Vec<Triangle>,
}

/// Render the whole figure for an apex anchored at (apex_x, apex_y)
/// with the given half width, height and recursion depth.
///
/// The result lists every drawn triangle in draw order. Its geometries
/// are exactly the recursive subdivision of the anchor triangle, taken
/// at scale 2^depth; there are (3^(depth+1) - 1) / 2 of them, and each
/// carries its own random color with every channel in [0, 255).
pub fn render(apex_x: i64, apex_y: i64, half_width: i64, height: i64, depth: u32) -> (r:
    Rendering)
    requires
        -MAX_EXTENT <= apex_x <= MAX_EXTENT,
        -MAX_EXTENT <= apex_y <= MAX_EXTENT,
        0 <= half_width <= MAX_EXTENT,
        0 <= height <= MAX_EXTENT,
        depth <= MAX_DEPTH,
    ensures
        r.scale == pow2(depth as nat),
        r.triangles@.len() == tri_count(depth as nat),
        geoms(r.triangles@) == sierpinski_seq(
            (Geom {
                x: apex_x * pow2(depth as nat),
                y: apex_y * pow2(depth as nat),
                hw: half_width * pow2(depth as nat),
                h: height * pow2(depth as nat),
            }),
            depth as nat,
        ),
        forall|i: int|
            0 <= i < r.triangles@.len() ==> valid_rgb(#[trigger] r.triangles@[i].color)
                && r.triangles@[i].wf(),
        depth == 0 ==> r.scale == 1 && r.triangles@.len() == 1 && geoms(r.triangles@)[0] == (Geom {
            x: apex_x as int,
            y: apex_y as int,
            hw: half_width as int,
            h: height as int,
        }),
{
    let scale = pow2_i64(depth);
    proof {
        lemma_scale_bound(apex_x as int, scale as int);
        lemma_scale_bound(apex_y as int, scale as int);
        lemma_scale_bound(half_width as int, scale as int);
        lemma_scale_bound(height as int, scale as int);
    }
    let sx = apex_x * scale;
    let sy = apex_y * scale;
    let shw = half_width * scale;
    let sh = height * scale;
    let mut triangles: Vec<Triangle> = Vec::new();
    sierpinski(&mut triangles, sx, sy, shw, sh, depth);
    proof {
        let g = Geom { x: sx as int, y: sy as int, hw: shw as int, h: sh as int };
        assert(geoms(Seq::<Triangle>::empty()) =~= Seq::<Geom>::empty());
        assert(Seq::<Geom>::empty() + sierpinski_seq(g, depth as nat) =~= sierpinski_seq(
            g,
            depth as nat,
        ));
        if depth == 0 {
            lemma2_to64();
            assert(scale == 1);
            assert(geoms(triangles@)[0] == g);
        }
    }
    Rendering { scale, triangles }
}

} // verus!
