use vstd::prelude::*;

verus! {

use crate::color::Rgb;
use crate::geometry::Triangle;

/// One drawing-surface operation. A closed shape is issued as: begin a
/// path, trace it with one move and some lines, close it, stroke the
/// outline in the surface's current stroke style, set the fill color,
/// fill the interior.
#[derive(Clone, Copy, Debug, PartialEq, Eq, Structural)]
pub enum DrawCmd {
    BeginPath,
    MoveTo(i64, i64),
    LineTo(i64, i64),
    ClosePath,
    Stroke,
    SetFillColor(Rgb),
    Fill,
}

/// The eight surface operations that draw one triangle: trace apex,
/// base-left, base-right, close, stroke, then fill with the triangle's
/// own color. The stroke style is never set here: it stays whatever the
/// surface currently holds.
pub open spec fn triangle_cmds(t: Triangle) -> Seq<DrawCmd> {
    seq![
        DrawCmd::BeginPath,
        DrawCmd::MoveTo(t.apex_x, t.apex_y),
        DrawCmd::LineTo((t.apex_x - t.half_width) as i64, (t.apex_y + t.height) as i64),
        DrawCmd::LineTo((t.apex_x + t.half_width) as i64, (t.apex_y + t.height) as i64),
        DrawCmd::ClosePath,
        DrawCmd::Stroke,
        DrawCmd::SetFillColor(t.color),
        DrawCmd::Fill,
    ]
}

/// Append the surface operations that draw one triangle.
pub fn draw_triangle(cmds: &mut Vec<DrawCmd>, t: &Triangle)
    requires
        t.wf(),
    ensures
        final(cmds)@ == old(cmds)@ + triangle_cmds(*t),
{
    cmds.push(DrawCmd::BeginPath);
    cmds.push(DrawCmd::MoveTo(t.apex_x, t.apex_y));
    cmds.push(DrawCmd::LineTo(t.apex_x - t.half_width, t.apex_y + t.height));
    cmds.push(DrawCmd::LineTo(t.apex_x + t.half_width, t.apex_y + t.height));
    cmds.push(DrawCmd::ClosePath);
    cmds.push(DrawCmd::Stroke);
    cmds.push(DrawCmd::SetFillColor(t.color));
    cmds.push(DrawCmd::Fill);
    proof {
        assert(cmds@ =~= old(cmds)@ + triangle_cmds(*t));
    }
}

/// The surface operations that draw a whole list of triangles, in draw
/// order: later blocks overpaint earlier overlapping ones.
pub open spec fn draw_cmds(ts: Seq<Triangle>) -> Seq<DrawCmd>
    decreases ts.len(),
{
    if ts.len() == 0 {
        Seq::empty()
    } else {
        draw_cmds(ts.drop_last()) + triangle_cmds(ts.last())
    }
}

/// Eight operations per triangle.
pub proof fn lemma_draw_cmds_len(ts: Seq<Triangle>)
    ensures
        draw_cmds(ts).len() == 8 * ts.len(),
    decreases ts.len(),
{
    if ts.len() > 0 {
        lemma_draw_cmds_len(ts.drop_last());
    }
}

/// The operation stream lays the triangles out in order, eight
/// operations each: the block for triangle i begins a path, traces that
/// triangle's own apex and base corners, closes, strokes, and fills
/// with that triangle's own color.
pub proof fn lemma_draw_cmds_layout(ts: Seq<Triangle>, i: int)
    requires
        0 <= i < ts.len(),
    ensures
        draw_cmds(ts).len() == 8 * ts.len(),
        draw_cmds(ts).subrange(8 * i, 8 * i + 8) == triangle_cmds(ts[i]),
    decreases ts.len(),
{
    lemma_draw_cmds_len(ts);
    lemma_draw_cmds_len(ts.drop_last());
    if i == ts.len() - 1 {
        assert(draw_cmds(ts).subrange(8 * i, 8 * i + 8) =~= triangle_cmds(ts[i]));
    } else {
        lemma_draw_cmds_layout(ts.drop_last(), i);
        assert(draw_cmds(ts).subrange(8 * i, 8 * i + 8) =~= draw_cmds(ts.drop_last()).subrange(
            8 * i,
            8 * i + 8,
        ));
    }
}

/// Encode a list of triangles as the flat sequence of surface
/// operations that draws them in order.
pub fn commands_for(tris: &Vec<Triangle>) -> (cmds: Vec<DrawCmd>)
    requires
        forall|i: int| 0 <= i < tris@.len() ==> (#[trigger] tris@[i]).wf(),
    ensures
        cmds@ == draw_cmds(tris@),
{
    let mut cmds: Vec<DrawCmd> = Vec::new();
    proof {
        assert(cmds@ =~= draw_cmds(tris@.take(0)));
    }
    let mut k: usize = 0;
    while k < tris.len()
        invariant
            k <= tris@.len(),
            forall|i: int| 0 <= i < tris@.len() ==> (#[trigger] tris@[i]).wf(),
            cmds@ == draw_cmds(tris@.take(k as int)),
        decreases tris@.len() - k,
    {
        draw_triangle(&mut cmds, &tris[k]);
        proof {
            assert(tris@.take(k as int + 1).drop_last() =~= tris@.take(k as int));
            assert(tris@.take(k as int + 1).last() == tris@[k as int]);
        }
        k = k + 1;
    }
    proof {
        assert(tris@.take(tris@.len() as int) =~= tris@);
    }
    cmds
}

/// The fill color of the fixed stem rectangle.
pub open spec fn stem_color() -> Rgb {
    Rgb { r: 116, g: 80, b: 48 }
}

/// The nine surface operations that draw the decorative stem: the
/// closed quadrilateral (250,450), (350,450), (350,600), (250,600),
/// stroked, then filled with rgb(116,80,48).
pub open spec fn stem_cmds() -> Seq<DrawCmd> {
    seq![
        DrawCmd::BeginPath,
        DrawCmd::MoveTo(250, 450),
        DrawCmd::LineTo(350, 450),
        DrawCmd::LineTo(350, 600),
        DrawCmd::LineTo(250, 600),
        DrawCmd::ClosePath,
        DrawCmd::Stroke,
        DrawCmd::SetFillColor(stem_color()),
        DrawCmd::Fill,
    ]
}

/// Draw the stem: always the same single fixed quadrilateral, whatever
/// was drawn before.
pub fn render_fixed_rect() -> (cmds: Vec<DrawCmd>)
    ensures
        cmds@ == stem_cmds(),
{
    let mut cmds: Vec<DrawCmd> = Vec::new();
    cmds.push(DrawCmd::BeginPath);
    cmds.push(DrawCmd::MoveTo(250, 450));
    cmds.push(DrawCmd::LineTo(350, 450));
    cmds.push(DrawCmd::LineTo(350, 600));
    cmds.push(DrawCmd::LineTo(250, 600));
    cmds.push(DrawCmd::ClosePath);
    cmds.push(DrawCmd::Stroke);
    cmds.push(DrawCmd::SetFillColor(Rgb { r: 116, g: 80, b: 48 }));
    cmds.push(DrawCmd::Fill);
    proof {
        assert(cmds@ =~= stem_cmds());
    }
    cmds
}

} // verus!
