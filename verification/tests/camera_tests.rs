use shell_tex::mat::Mat4R;
use shell_tex::program_state::Camera;
use shell_tex::rat::Rat;
use shell_tex::transform::{QuatR, Transform, Vec3R};

/// The sixteen entries of a matrix, row-major.
fn entries(m: &Mat4R) -> [Rat; 16] {
    [
        m.m00, m.m01, m.m02, m.m03, m.m10, m.m11, m.m12, m.m13, m.m20, m.m21, m.m22, m.m23,
        m.m30, m.m31, m.m32, m.m33,
    ]
}

/// Cross-multiplied equality of two rationals, in wide arithmetic.
fn rat_value_eq(a: (i128, i128), b: (i128, i128)) -> bool {
    a.0 * b.1 == b.0 * a.1
}

/// Exact rational 4x4 product, in wide arithmetic.
fn mat_product(a: &Mat4R, b: &Mat4R) -> [(i128, i128); 16] {
    let ae = entries(a);
    let be = entries(b);
    let mut out = [(0i128, 1i128); 16];
    for r in 0..4 {
        for c in 0..4 {
            let mut num: i128 = 0;
            let mut den: i128 = 1;
            for i in 0..4 {
                let t_num = (ae[4 * r + i].num as i128) * (be[4 * i + c].num as i128);
                let t_den = (ae[4 * r + i].den as i128) * (be[4 * i + c].den as i128);
                num = num * t_den + t_num * den;
                den *= t_den;
            }
            out[4 * r + c] = (num, den);
        }
    }
    out
}

fn identity_entry(k: usize) -> (i128, i128) {
    if k % 5 == 0 { (1, 1) } else { (0, 1) }
}

#[test]
fn projection_entries_are_the_fixed_frustum() {
    let cam = Camera::new(Transform::default(), Rat { num: 3, den: 4 });
    let p = cam.world_projection();
    assert_eq!(p.m00, Rat { num: 4, den: 3 });
    assert_eq!(p.m11, Rat { num: 1, den: 1 });
    assert_eq!(p.m22, Rat { num: 101, den: 100 });
    assert_eq!(p.m23, Rat { num: -101, den: 10000 });
    assert_eq!(p.m32, Rat { num: 1, den: 1 });
    assert_eq!(p.m01, Rat { num: 0, den: 1 });
    let q = cam.inv_world_projection();
    assert_eq!(q.m00, Rat { num: 3, den: 4 });
    assert_eq!(q.m23, Rat { num: 1, den: 1 });
    assert_eq!(q.m32, Rat { num: -10000, den: 101 });
    assert_eq!(q.m33, Rat { num: 100, den: 1 });
}

#[test]
fn update_aspect_ratio_is_idempotent() {
    let mut cam = Camera::new(Transform::default(), Rat { num: 600, den: 800 });
    cam.update_aspect_ratio(1024, 768);
    let first_proj = *cam.world_projection();
    let first_inv = *cam.inv_world_projection();
    cam.update_aspect_ratio(1024, 768);
    // bit-identical on repeat
    assert_eq!(*cam.world_projection(), first_proj);
    assert_eq!(*cam.inv_world_projection(), first_inv);
}

#[test]
fn projection_times_inverse_is_identity() {
    for (w, h) in [(800u32, 600u32), (1, 1), (1920, 1080), (123, 4567)] {
        let mut cam = Camera::new(Transform::default(), Rat { num: 1, den: 1 });
        cam.update_aspect_ratio(w, h);
        let prod = mat_product(cam.world_projection(), cam.inv_world_projection());
        for (k, &e) in prod.iter().enumerate() {
            assert!(rat_value_eq(e, identity_entry(k)), "entry {} off", k);
        }
    }
}

#[test]
fn view_matrix_of_identity_transform_is_identity() {
    let cam = Camera::new(Transform::default(), Rat { num: 1, den: 1 });
    let v = cam.view_matrix();
    for (k, e) in entries(&v).iter().enumerate() {
        assert!(rat_value_eq(
            (e.num as i128, e.den as i128),
            identity_entry(k)
        ));
    }
}

#[test]
fn world_matrix_is_translation_times_rotation() {
    // an exact unit quaternion: (1,1,1,1)/2 — a 120-degree rotation
    let t = Transform::new(
        Vec3R { x: 1, y: 2, z: 3, den: 4 },
        QuatR { x: 1, y: 1, z: 1, w: 1, den: 2 },
    );
    let m = t.mat();
    // rotation block: rows cycle the axes
    assert!(rat_value_eq((m.m00.num as i128, m.m00.den as i128), (0, 1)));
    assert!(rat_value_eq((m.m01.num as i128, m.m01.den as i128), (0, 1)));
    assert!(rat_value_eq((m.m02.num as i128, m.m02.den as i128), (1, 1)));
    assert!(rat_value_eq((m.m10.num as i128, m.m10.den as i128), (1, 1)));
    assert!(rat_value_eq((m.m11.num as i128, m.m11.den as i128), (0, 1)));
    assert!(rat_value_eq((m.m12.num as i128, m.m12.den as i128), (0, 1)));
    assert!(rat_value_eq((m.m20.num as i128, m.m20.den as i128), (0, 1)));
    assert!(rat_value_eq((m.m21.num as i128, m.m21.den as i128), (1, 1)));
    assert!(rat_value_eq((m.m22.num as i128, m.m22.den as i128), (0, 1)));
    // translation column and homogeneous row
    assert_eq!(m.m03, Rat { num: 1, den: 4 });
    assert_eq!(m.m13, Rat { num: 2, den: 4 });
    assert_eq!(m.m23, Rat { num: 3, den: 4 });
    assert_eq!(m.m30, Rat { num: 0, den: 1 });
    assert_eq!(m.m33, Rat { num: 1, den: 1 });

    // and the same matrix comes from multiplying translate(t) by rotate(q)
    let translate = Mat4R {
        m00: Rat { num: 1, den: 1 }, m01: Rat { num: 0, den: 1 },
        m02: Rat { num: 0, den: 1 }, m03: Rat { num: 1, den: 4 },
        m10: Rat { num: 0, den: 1 }, m11: Rat { num: 1, den: 1 },
        m12: Rat { num: 0, den: 1 }, m13: Rat { num: 2, den: 4 },
        m20: Rat { num: 0, den: 1 }, m21: Rat { num: 0, den: 1 },
        m22: Rat { num: 1, den: 1 }, m23: Rat { num: 3, den: 4 },
        m30: Rat { num: 0, den: 1 }, m31: Rat { num: 0, den: 1 },
        m32: Rat { num: 0, den: 1 }, m33: Rat { num: 1, den: 1 },
    };
    let mut rotate = m;
    rotate.m03 = Rat { num: 0, den: 1 };
    rotate.m13 = Rat { num: 0, den: 1 };
    rotate.m23 = Rat { num: 0, den: 1 };
    let prod = mat_product(&translate, &rotate);
    for (k, e) in entries(&m).iter().enumerate() {
        assert!(rat_value_eq(prod[k], (e.num as i128, e.den as i128)));
    }
}
