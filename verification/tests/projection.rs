//! The projection frustum: resize semantics, the perspective and
//! orthographic conversion round trip, and the matrix against glam's
//! floating-point reference.

use orbit_camera::camera::{Mat4Fx, Projection};

const ONE: i64 = 65536;

fn fx(v: f64) -> i64 {
    (v * 65536.0).round() as i64
}

fn to_f(v: i64) -> f32 {
    v as f32 / 65536.0
}

/// near 0.1, far 100, viewport 800x600, fovy 60 degrees.
fn scenario_projection() -> Projection {
    Projection::perspective(fx(0.1), fx(100.0), fx(800.0), fx(600.0), fx(1.0471976))
}

#[test]
fn perspective_computes_aspect() {
    let p = scenario_projection();
    match p {
        Projection::Perspective { near, far, aspect, fovy } => {
            assert_eq!(near, fx(0.1));
            assert_eq!(far, fx(100.0));
            assert_eq!(fovy, fx(1.0471976));
            // 800/600 in fixed point, truncating: 87381.
            assert_eq!(aspect, 87381);
        },
        Projection::Orthographic { .. } => panic!("constructed variant"),
    }
}

#[test]
fn resize_recomputes_aspect_only() {
    let mut p = scenario_projection();
    p.resize(fx(600.0), fx(800.0), fx(300.0), fx(400.0));
    match p {
        Projection::Perspective { near, far, aspect, fovy } => {
            assert_eq!(near, fx(0.1));
            assert_eq!(far, fx(100.0));
            assert_eq!(fovy, fx(1.0471976));
            assert!((to_f(aspect) - 400.0 / 300.0).abs() < 1e-3);
        },
        Projection::Orthographic { .. } => panic!("resize keeps the variant"),
    }
}

#[test]
fn resize_with_same_viewport_is_identity() {
    let mut p = scenario_projection();
    p.resize(fx(600.0), fx(800.0), fx(600.0), fx(800.0));
    assert_eq!(p, scenario_projection());

    let mut o = scenario_projection();
    o.to_orthographic(fx(2.0));
    let before = o;
    o.resize(fx(600.0), fx(800.0), fx(600.0), fx(800.0));
    assert_eq!(o, before);
    // And with a viewport the orthographic frustum was never built from.
    let mut o2 = before;
    o2.resize(fx(123.0), fx(456.0), fx(123.0), fx(456.0));
    assert_eq!(o2, before);
}

#[test]
fn resize_ignores_degenerate_new_viewports() {
    let p0 = scenario_projection();
    let mut p = p0;
    p.resize(fx(600.0), fx(800.0), 0, fx(400.0));
    assert_eq!(p, p0);
    p.resize(fx(600.0), fx(800.0), fx(300.0), -fx(400.0));
    assert_eq!(p, p0);
    let mut o = p0;
    o.to_orthographic(fx(2.0));
    let o0 = o;
    o.resize(fx(600.0), fx(800.0), -fx(300.0), fx(400.0));
    assert_eq!(o, o0);
}

#[test]
fn perspective_resize_reads_only_the_new_viewport() {
    // The perspective arm never divides by the old dimensions, so a
    // degenerate old pair must not keep the aspect stale.
    let mut p = scenario_projection();
    p.resize(0, 0, fx(300.0), fx(400.0));
    match p {
        Projection::Perspective { aspect, .. } => {
            assert!((to_f(aspect) - 400.0 / 300.0).abs() < 1e-3);
        },
        Projection::Orthographic { .. } => panic!("resize keeps the variant"),
    }
    // The orthographic arm scales by old dimensions, so there a
    // degenerate old pair is ignored.
    let mut o = scenario_projection();
    o.to_orthographic(fx(2.0));
    let o0 = o;
    o.resize(0, 0, fx(300.0), fx(400.0));
    assert_eq!(o, o0);
}

#[test]
fn orthographic_height_matches_tangent_relation() {
    let mut p = scenario_projection();
    p.to_orthographic(fx(2.0));
    match p {
        Projection::Orthographic { near, far, width, height } => {
            assert_eq!(near, fx(0.1));
            assert_eq!(far, fx(100.0));
            // height = 2 * d * tan(fovy/2) = 4 * tan(30 deg) = 2.3094.
            assert!((to_f(height) - 2.3094).abs() < 1e-2, "height = {}", to_f(height));
            assert!((to_f(width) - 4.0 / 3.0 * 2.3094).abs() < 2e-2);
        },
        Projection::Perspective { .. } => panic!("conversion changes the variant"),
    }
    // Converting again is a no-op.
    let q = p;
    p.to_orthographic(fx(7.0));
    assert_eq!(p, q);
}

#[test]
fn conversion_round_trip_is_identity_within_tolerance() {
    let p0 = scenario_projection();
    let mut p = p0;
    p.to_orthographic(fx(2.0));
    p.to_perspective(fx(2.0));
    match (p, p0) {
        (
            Projection::Perspective { near, far, aspect, fovy },
            Projection::Perspective { near: n0, far: f0, aspect: a0, fovy: v0 },
        ) => {
            assert_eq!(near, n0);
            assert_eq!(far, f0);
            assert!((to_f(aspect) - to_f(a0)).abs() < 1e-2, "aspect {} vs {}", aspect, a0);
            assert!((to_f(fovy) - to_f(v0)).abs() < 1e-2, "fovy {} vs {}", fovy, v0);
        },
        _ => panic!("round trip keeps the variant"),
    }
    // The same at other distances.
    for d in [fx(0.5), fx(1.0), fx(10.0)] {
        let mut q = p0;
        q.to_orthographic(d);
        q.to_perspective(d);
        match q {
            Projection::Perspective { fovy, .. } => {
                assert!((to_f(fovy) - 1.0471976).abs() < 1e-2);
            },
            Projection::Orthographic { .. } => panic!("round trip keeps the variant"),
        }
    }
}

#[test]
fn to_perspective_on_perspective_is_noop() {
    let p0 = scenario_projection();
    let mut p = p0;
    p.to_perspective(fx(2.0));
    assert_eq!(p, p0);
}

fn matrix_close(m: &Mat4Fx, g: &glam::Mat4) {
    let cols = [
        (m.x_axis.x, m.x_axis.y, m.x_axis.z, m.x_axis.w),
        (m.y_axis.x, m.y_axis.y, m.y_axis.z, m.y_axis.w),
        (m.z_axis.x, m.z_axis.y, m.z_axis.z, m.z_axis.w),
        (m.w_axis.x, m.w_axis.y, m.w_axis.z, m.w_axis.w),
    ];
    let gcols = [g.x_axis, g.y_axis, g.z_axis, g.w_axis];
    for (c, gc) in cols.iter().zip(gcols.iter()) {
        assert!((to_f(c.0) - gc.x).abs() < 1e-2, "{} vs {}", to_f(c.0), gc.x);
        assert!((to_f(c.1) - gc.y).abs() < 1e-2, "{} vs {}", to_f(c.1), gc.y);
        assert!((to_f(c.2) - gc.z).abs() < 1e-2, "{} vs {}", to_f(c.2), gc.z);
        assert!((to_f(c.3) - gc.w).abs() < 1e-2, "{} vs {}", to_f(c.3), gc.w);
    }
}

#[test]
fn perspective_matrix_matches_reference() {
    let p = scenario_projection();
    let m = p.make_matrix();
    let g = glam::Mat4::perspective_lh(1.0471976, 800.0 / 600.0, 0.1, 100.0);
    matrix_close(&m, &g);
}

#[test]
fn orthographic_matrix_matches_reference() {
    let mut p = scenario_projection();
    p.to_orthographic(fx(2.0));
    let (w, h) = match p {
        Projection::Orthographic { width, height, .. } => (to_f(width), to_f(height)),
        Projection::Perspective { .. } => panic!("conversion changes the variant"),
    };
    let m = p.make_matrix();
    let g = glam::Mat4::orthographic_lh(
        -w * 0.5,
        w * 0.5,
        -h * 0.5,
        h * 0.5,
        0.1,
        100.0,
    );
    matrix_close(&m, &g);
}

#[test]
fn one_unit_constant_is_consistent() {
    assert_eq!(ONE, 65536);
    assert_eq!(fx(1.0), ONE);
}
