use sphere_automata::generate::generate;
use sphere_automata::geometry::{Pos3, SCALE, HALF_PI_FP, cos_fp, sin_fp, dist2, isqrt};
use sphere_automata::material::Material;

#[test]
fn generate_is_deterministic() {
    let a = generate(100);
    let b = generate(100);
    assert_eq!(a, b);
}

#[test]
fn generate_count_and_initial_material() {
    let pts = generate(50);
    assert_eq!(pts.len(), 50);
    for (i, p) in pts.iter().enumerate() {
        assert_eq!(p.point.id, i);
        assert_eq!(p.material, Material::Dirt);
        assert!(p.point.position.x.abs() <= SCALE);
        assert!(p.point.position.y.abs() <= SCALE);
        assert!(p.point.position.z.abs() <= SCALE);
    }
}

#[test]
fn generate_zero_is_empty() {
    assert_eq!(generate(0).len(), 0);
}

#[test]
fn generate_one_sits_at_the_pole() {
    let pts = generate(1);
    assert_eq!(pts.len(), 1);
    let p = pts[0].point.position;
    assert_eq!(p, Pos3 { x: 0, y: SCALE, z: 0 });
}

#[test]
fn generate_two_second_point_on_equator() {
    let pts = generate(2);
    let p = pts[1].point.position;
    // y = 1 - (1/2) * 2 = 0; the ring radius is exactly 1
    assert_eq!(p.y, 0);
    // theta = 1.618034 rad lies in the second quadrant
    assert!(p.x < 0);
    assert!(p.z > 0);
    // x^2 + z^2 stays close to 1 despite the truncated series
    let r2 = p.x * p.x + p.z * p.z;
    assert!(r2 >= 994_000_000_000, "ring radius too small: {r2}");
    assert!(r2 <= 1_002_000_000_000, "ring radius too large: {r2}");
}

#[test]
fn generate_heights_descend() {
    let pts = generate(40);
    for w in pts.windows(2) {
        assert!(w[0].point.position.y >= w[1].point.position.y);
    }
}

#[test]
fn isqrt_exact_values() {
    assert_eq!(isqrt(0), 0);
    assert_eq!(isqrt(1), 1);
    assert_eq!(isqrt(3), 1);
    assert_eq!(isqrt(4), 2);
    assert_eq!(isqrt(999_999), 999);
    assert_eq!(isqrt(1_000_000), 1000);
    assert_eq!(isqrt(1_000_000_000_000), 1_000_000);
    assert_eq!(isqrt(999_999_999_999), 999_999);
}

#[test]
fn trig_anchor_values() {
    assert_eq!(cos_fp(0), SCALE);
    assert_eq!(sin_fp(0), 0);
    // at half pi the truncated series stays within a thousandth of the exact 0 and 1
    assert!(cos_fp(HALF_PI_FP).abs() <= 1_000);
    assert!((sin_fp(HALF_PI_FP) - SCALE).abs() <= 1_000);
}

#[test]
fn dist2_concrete_value() {
    let a = Pos3 { x: 0, y: 0, z: 0 };
    let b = Pos3 { x: 3, y: 4, z: 0 };
    assert_eq!(dist2(&a, &b), 25);
}

#[test]
fn dist2_is_symmetric() {
    let pts = generate(12);
    for a in pts.iter() {
        for b in pts.iter() {
            assert_eq!(
                dist2(&a.point.position, &b.point.position),
                dist2(&b.point.position, &a.point.position)
            );
        }
    }
}
