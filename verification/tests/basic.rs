use qmath::{scal, scal_int, vec2, Vec2, rect, Mat3, mat3_inv, mat3_identity};

fn s(n: i128, d: i128) -> qmath::Scal {
    scal(n, d)
}

#[test]
fn test_rect_rtw() {
    let r = rect(s(-2, 1), s(-2, 1), s(4, 1), s(4, 1));
    let v = vec2(s(1, 4), s(1, 4));
    let p = r.rect_to_world(v);
    assert!(p.x.eq_val(s(-1, 1)) && p.y.eq_val(s(-1, 1)));
}

#[test]
fn test_rect_wtr() {
    let r = rect(s(4, 1), s(4, 1), s(1, 1), s(2, 1));
    let v = vec2(s(9, 2), s(5, 1));
    let p = r.world_to_rect(v);
    assert!(p.x.eq_val(s(1, 2)) && p.y.eq_val(s(1, 2)));
}

#[test]
fn test_rect_contains() {
    let r = rect(s(1, 1), s(1, 1), s(2, 1), s(2, 1));
    let inside_point = vec2(s(3, 2), s(3, 2));
    assert!(r.contains(inside_point));
    let outside_point = vec2(s(7, 2), s(7, 2));
    assert!(!r.contains(outside_point));
}

#[test]
fn test_rect_uniform_grid() {
    let r = rect(s(0, 1), s(0, 1), s(4, 1), s(4, 1));
    let g = r.uniform_grid(1, 0, 2, 2);
    assert!(g.xy.x.eq_val(s(2, 1)) && g.xy.y.eq_val(s(0, 1)));
    assert!(g.wh.x.eq_val(s(2, 1)) && g.wh.y.eq_val(s(2, 1)));
}

#[test]
fn test_rect_grid() {
    let r = rect(s(0, 1), s(0, 1), s(4, 1), s(4, 1));
    let widths = vec![s(1, 1), s(2, 1), s(1, 1)];
    let heights = vec![s(1, 2), s(5, 2), s(1, 1)];
    let g = r.grid(1, 1, &widths, &heights);
    assert!(g.xy.x.eq_val(s(1, 1)) && g.xy.y.eq_val(s(1, 2)));
    assert!(g.wh.x.eq_val(s(2, 1)) && g.wh.y.eq_val(s(5, 2)));
}

#[test]
fn test_rect_fit_aspect() {
    let r = rect(s(0, 1), s(0, 1), s(4, 1), s(4, 1));
    let g = r.fit_aspect(s(2, 1));
    assert!(g.xy.x.eq_val(s(0, 1)) && g.xy.y.eq_val(s(1, 1)));
    assert!(g.wh.x.eq_val(s(4, 1)) && g.wh.y.eq_val(s(2, 1)));
}

#[test]
fn hsv_red_green_white() {
    let red = qmath::vec4(s(0, 1), s(1, 1), s(1, 1), s(1, 1)).hsv_to_rgb();
    assert!(red.x.eq_val(s(1, 1)) && red.y.eq_val(s(0, 1)) && red.z.eq_val(s(0, 1)));
    let green = qmath::vec4(s(120, 1), s(1, 1), s(1, 1), s(1, 1)).hsv_to_rgb();
    assert!(green.x.eq_val(s(0, 1)) && green.y.eq_val(s(1, 1)) && green.z.eq_val(s(0, 1)));
    let white = qmath::vec4(s(0, 1), s(0, 1), s(1, 1), s(1, 2)).hsv_to_rgb();
    assert!(white.x.eq_val(s(1, 1)) && white.y.eq_val(s(1, 1)) && white.z.eq_val(s(1, 1)));
    assert!(white.w.eq_val(s(1, 2)));
}

#[test]
fn mat3_inv_singular_gives_identity() {
    let m = Mat3 { m0: 1, m1: 2, m2: 3, m3: 2, m4: 4, m5: 6, m6: 0, m7: 1, m8: 1, d: 1 };
    let inv = mat3_inv(&m);
    assert!(inv.eq_val(&mat3_identity()));
}

#[test]
fn mat3_inv_of_identity_is_identity() {
    let inv = mat3_inv(&mat3_identity());
    assert!(inv.eq_val(&mat3_identity()));
}

#[test]
fn scal_arith_exact() {
    let a = s(1, 2).add(s(1, 3));
    assert!(a.eq_val(s(5, 6)));
    let b = s(3, 4).mul(s(2, 5));
    assert!(b.eq_val(s(3, 10)));
    let c = s(1, 2).div(s(-1, 4));
    assert!(c.eq_val(s(-2, 1)));
    let l = qmath::lerp(scal_int(2), scal_int(6), s(1, 4));
    assert!(l.eq_val(s(3, 1)));
}

#[test]
fn vec2_complex_ops() {
    let p = vec2(s(1, 1), s(2, 1)).mul_complex(vec2(s(3, 1), s(4, 1)));
    assert!(p.x.eq_val(s(-5, 1)) && p.y.eq_val(s(10, 1)));
    let q = vec2(s(-5, 1), s(10, 1)).div_complex(vec2(s(3, 1), s(4, 1)));
    assert!(q.x.eq_val(s(1, 1)) && q.y.eq_val(s(2, 1)));
}

#[test]
fn vec2_round_trip_concrete() {
    let r = rect(s(3, 1), s(-1, 1), s(5, 2), s(7, 3));
    let p = vec2(s(1, 3), s(2, 3));
    let q = r.world_to_rect(r.rect_to_world(p));
    assert!(q.x.eq_val(p.x) && q.y.eq_val(p.y));
}

fn _uses_vec3(v: qmath::Vec3) -> Vec2 {
    v.xy()
}

#[test]
fn mat3_inv_times_matrix_is_identity() {
    let m = Mat3 { m0: 1, m1: 2, m2: 0, m3: 3, m4: 4, m5: 0, m6: 0, m7: 0, m8: 1, d: 2 };
    let inv = qmath::mat3_inv(&m);
    let left = qmath::mat3_mul(&m, &inv);
    let right = qmath::mat3_mul(&inv, &m);
    assert!(left.eq_val(&mat3_identity()));
    assert!(right.eq_val(&mat3_identity()));
}

#[test]
fn mat3_trans_homog_affine() {
    // Scale x by 2, y by 3, then translate by (5, 7): over denominator 1.
    let m = Mat3 { m0: 2, m1: 0, m2: 5, m3: 0, m4: 3, m5: 7, m6: 0, m7: 0, m8: 1, d: 1 };
    let p = qmath::mat3_trans_homog(vec2(s(1, 1), s(1, 1)), &m);
    assert!(p.x.eq_val(s(7, 1)) && p.y.eq_val(s(10, 1)));
}

#[test]
fn mat4_mul_exact() {
    let a = qmath::Mat4 {
        m0: 1, m1: 2, m2: 3, m3: 4,
        m4: 5, m5: 6, m6: 7, m7: 8,
        m8: 9, m9: 10, m10: 11, m11: 12,
        m12: 13, m13: 14, m14: 15, m15: 16,
        d: 1,
    };
    // b is the matrix with value I/2: multiplying by it halves every entry.
    let b = qmath::Mat4 {
        m0: 1, m1: 0, m2: 0, m3: 0,
        m4: 0, m5: 1, m6: 0, m7: 0,
        m8: 0, m9: 0, m10: 1, m11: 0,
        m12: 0, m13: 0, m14: 0, m15: 1,
        d: 2,
    };
    let p = qmath::mat4_mul(&a, &b);
    let half_a = qmath::Mat4 { d: 2, ..a };
    assert!(p.eq_val(&half_a));
}

#[test]
fn mat4_mul_associative_concrete() {
    let a = qmath::Mat4 {
        m0: 1, m1: 2, m2: 0, m3: 1,
        m4: 0, m5: 1, m6: 3, m7: 0,
        m8: 2, m9: 0, m10: 1, m11: 5,
        m12: 0, m13: 4, m14: 0, m15: 1,
        d: 2,
    };
    let b = qmath::Mat4 {
        m0: 3, m1: 0, m2: 1, m3: 0,
        m4: 1, m5: 2, m6: 0, m7: 4,
        m8: 0, m9: 1, m10: 2, m11: 0,
        m12: 5, m13: 0, m14: 0, m15: 3,
        d: 3,
    };
    let c = qmath::Mat4 {
        m0: 1, m1: 1, m2: 0, m3: 2,
        m4: 0, m5: 3, m6: 1, m7: 0,
        m8: 4, m9: 0, m10: 2, m11: 1,
        m12: 0, m13: 5, m14: 0, m15: 1,
        d: 4,
    };
    let lhs = qmath::mat4_mul(&qmath::mat4_mul(&a, &b), &c);
    let rhs = qmath::mat4_mul(&a, &qmath::mat4_mul(&b, &c));
    assert!(lhs.eq_val(&rhs));
    assert_eq!(lhs, rhs);
}

#[test]
fn mat4_transpose_involution_concrete() {
    let a = qmath::Mat4 {
        m0: 1, m1: 2, m2: 3, m3: 4,
        m4: 5, m5: 6, m6: 7, m7: 8,
        m8: 9, m9: 10, m10: 11, m11: 12,
        m12: 13, m13: 14, m14: 15, m15: 16,
        d: 7,
    };
    let t = qmath::mat4_transpose(&a);
    assert_eq!(t.m1, 5);
    assert_eq!(t.m4, 2);
    assert_eq!(qmath::mat4_transpose(&t), a);
}

#[test]
fn mat4_trans_homog_translation() {
    // Identity basis with the translation row (10, 20, 30).
    let m = qmath::Mat4 {
        m0: 1, m1: 0, m2: 0, m3: 0,
        m4: 0, m5: 1, m6: 0, m7: 0,
        m8: 0, m9: 0, m10: 1, m11: 0,
        m12: 10, m13: 20, m14: 30, m15: 1,
        d: 1,
    };
    let v = qmath::vec3(s(1, 1), s(2, 1), s(3, 1));
    let r = qmath::mat4_trans_homog(v, &m);
    assert!(r.x.eq_val(s(11, 1)) && r.y.eq_val(s(22, 1)) && r.z.eq_val(s(33, 1)));
}
