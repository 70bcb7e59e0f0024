use sierpinski::color::random_rgb;
use sierpinski::commands::{commands_for, render_fixed_rect, DrawCmd};
use sierpinski::fractal::render;

#[test]
fn depth_zero_draws_one_triangle_at_the_apex() {
    let r = render(300, 0, 256, 450, 0);
    assert_eq!(r.scale, 1);
    assert_eq!(r.triangles.len(), 1);
    let t = r.triangles[0];
    assert_eq!(
        t.vertices(),
        ((300, 0), (44, 450), (556, 450)),
    );
}

#[test]
fn depth_one_draws_four_triangles_with_halved_children() {
    let r = render(300, 0, 256, 450, 1);
    assert_eq!(r.scale, 2);
    assert_eq!(r.triangles.len(), 4);
    let parent = r.triangles[0];
    // Subunit coordinates: the inputs taken at scale 2.
    assert_eq!(
        (parent.apex_x, parent.apex_y, parent.half_width, parent.height),
        (600, 0, 512, 900),
    );
    for child in &r.triangles[1..] {
        // Half the parent's extent: 128 and 225 surface units.
        assert_eq!(child.half_width, 256);
        assert_eq!(child.half_width / r.scale, 128);
        assert_eq!(child.height, 450);
        assert_eq!(child.height / r.scale, 225);
    }
    // Child apexes: parent's apex, then shifted right and down, then
    // shifted left and down, each by half the parent's extent.
    assert_eq!((r.triangles[1].apex_x, r.triangles[1].apex_y), (600, 0));
    assert_eq!((r.triangles[2].apex_x, r.triangles[2].apex_y), (856, 450));
    assert_eq!((r.triangles[3].apex_x, r.triangles[3].apex_y), (344, 450));
}

#[test]
fn triangle_count_follows_the_closed_form() {
    for depth in 0..7u32 {
        let r = render(0, 0, 64, 64, depth);
        let mut power: u64 = 1;
        for _ in 0..(depth + 1) {
            power *= 3;
        }
        assert_eq!(r.triangles.len() as u64, (power - 1) / 2);
    }
}

#[test]
fn deep_rendering_keeps_exact_geometry() {
    let r = render(300, 0, 256, 450, 8);
    assert_eq!(r.scale, 256);
    assert_eq!(r.triangles.len(), 9841);
    let root = r.triangles[0];
    assert_eq!(root.apex_x, 300 * 256);
    assert_eq!(root.half_width, 256 * 256);
    assert_eq!(root.height, 450 * 256);
    // The smallest triangles sit 8 halvings down: 1 unit wide, at exact
    // subunit positions.
    let last = r.triangles[r.triangles.len() - 1];
    assert_eq!(last.half_width, 256);
    assert_eq!(last.height, 450);
}

#[test]
fn degenerate_extents_are_accepted() {
    let r = render(0, 0, 0, 0, 2);
    assert_eq!(r.triangles.len(), 13);
    for t in &r.triangles {
        assert_eq!(t.vertices(), ((0, 0), (0, 0), (0, 0)));
    }
}

#[test]
fn negative_anchor_coordinates_are_accepted() {
    let r = render(-100, -100, 50, 50, 1);
    assert_eq!(r.triangles.len(), 4);
    assert_eq!((r.triangles[0].apex_x, r.triangles[0].apex_y), (-200, -200));
    assert_eq!((r.triangles[3].apex_x, r.triangles[3].apex_y), (-250, -150));
}

#[test]
fn color_channels_stay_below_255_and_reach_0() {
    let mut saw_zero = false;
    for _ in 0..4000 {
        let c = random_rgb();
        assert!(c.r < 255 && c.g < 255 && c.b < 255);
        if c.r == 0 || c.g == 0 || c.b == 0 {
            saw_zero = true;
        }
    }
    assert!(saw_zero);
}

#[test]
fn every_triangle_gets_its_own_color_sample() {
    // 40 independent uniform samples over 255^3 colors collide with
    // negligible probability; equal colors would mean the sampler is
    // not drawing per triangle.
    let r = render(300, 0, 256, 450, 3);
    let mut distinct = 0;
    for t in &r.triangles {
        let mut seen_before = false;
        for u in &r.triangles {
            if (u.apex_x, u.apex_y, u.half_width, u.height)
                != (t.apex_x, t.apex_y, t.half_width, t.height)
                && u.color == t.color
            {
                seen_before = true;
            }
        }
        if !seen_before {
            distinct += 1;
        }
    }
    assert!(distinct > r.triangles.len() / 2);
}

#[test]
fn command_stream_traces_each_triangle_outline_then_fills() {
    let r = render(300, 0, 256, 450, 0);
    let cmds = commands_for(&r.triangles);
    let c = r.triangles[0].color;
    let expected = vec![
        DrawCmd::BeginPath,
        DrawCmd::MoveTo(300, 0),
        DrawCmd::LineTo(44, 450),
        DrawCmd::LineTo(556, 450),
        DrawCmd::ClosePath,
        DrawCmd::Stroke,
        DrawCmd::SetFillColor(c),
        DrawCmd::Fill,
    ];
    assert_eq!(cmds, expected);
}

#[test]
fn command_stream_has_eight_operations_per_triangle() {
    let r = render(300, 0, 256, 450, 2);
    let cmds = commands_for(&r.triangles);
    assert_eq!(cmds.len(), 8 * r.triangles.len());
    for (i, t) in r.triangles.iter().enumerate() {
        let (apex, left, right) = t.vertices();
        assert_eq!(cmds[8 * i], DrawCmd::BeginPath);
        assert_eq!(cmds[8 * i + 1], DrawCmd::MoveTo(apex.0, apex.1));
        assert_eq!(cmds[8 * i + 2], DrawCmd::LineTo(left.0, left.1));
        assert_eq!(cmds[8 * i + 3], DrawCmd::LineTo(right.0, right.1));
        assert_eq!(cmds[8 * i + 4], DrawCmd::ClosePath);
        assert_eq!(cmds[8 * i + 5], DrawCmd::Stroke);
        assert_eq!(cmds[8 * i + 6], DrawCmd::SetFillColor(t.color));
        assert_eq!(cmds[8 * i + 7], DrawCmd::Fill);
    }
}

#[test]
fn stem_is_one_fixed_filled_quadrilateral() {
    let cmds = render_fixed_rect();
    let fill = sierpinski::color::Rgb { r: 116, g: 80, b: 48 };
    let expected = vec![
        DrawCmd::BeginPath,
        DrawCmd::MoveTo(250, 450),
        DrawCmd::LineTo(350, 450),
        DrawCmd::LineTo(350, 600),
        DrawCmd::LineTo(250, 600),
        DrawCmd::ClosePath,
        DrawCmd::Stroke,
        DrawCmd::SetFillColor(fill),
        DrawCmd::Fill,
    ];
    assert_eq!(cmds, expected);
    // Twice the same, whatever happened in between.
    let _ = render(300, 0, 256, 450, 1);
    assert_eq!(render_fixed_rect(), expected);
}
