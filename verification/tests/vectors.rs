use pathgeom::float4::Float4;
use pathgeom::scalar::{eq_bits, is_nan_bits, lt_bits, max_bits, min_bits};

fn sample_values() -> Vec<f32> {
    vec![
        0.0,
        -0.0,
        1.0,
        -1.0,
        1.5,
        -2.25,
        3.7,
        1e-41,
        -1e-41,
        f32::MIN_POSITIVE,
        f32::MAX,
        f32::MIN,
        f32::INFINITY,
        f32::NEG_INFINITY,
        f32::NAN,
    ]
}

fn same_value(a: f32, b: f32) -> bool {
    a == b || (a.is_nan() && b.is_nan())
}

#[test]
fn extract() {
    let v = Float4::new(
        1.0f32.to_bits(),
        2.0f32.to_bits(),
        3.0f32.to_bits(),
        4.0f32.to_bits(),
    );
    assert!(v.eq_tuple((
        1.0f32.to_bits(),
        2.0f32.to_bits(),
        3.0f32.to_bits(),
        4.0f32.to_bits(),
    )));
}

#[test]
fn swizzle() {
    {
        // zwxy
        let v = Float4::new(
            1.0f32.to_bits(),
            2.0f32.to_bits(),
            3.0f32.to_bits(),
            4.0f32.to_bits(),
        );
        assert_eq!(
            v.zwxy(),
            Float4::new(
                3.0f32.to_bits(),
                4.0f32.to_bits(),
                1.0f32.to_bits(),
                2.0f32.to_bits(),
            )
        );
    }
}

#[test]
fn swizzle_is_self_inverse() {
    for &x in &sample_values() {
        let v = Float4::new(
            x.to_bits(),
            (x + 1.0).to_bits(),
            (x * 0.5).to_bits(),
            (-x).to_bits(),
        );
        assert_eq!(v.zwxy().zwxy(), v);
    }
}

#[test]
fn lane_accessors() {
    let v = Float4::new(
        (-1.5f32).to_bits(),
        f32::NAN.to_bits(),
        0.0f32.to_bits(),
        f32::INFINITY.to_bits(),
    );
    assert_eq!(v.x(), (-1.5f32).to_bits());
    assert_eq!(v.y(), f32::NAN.to_bits());
    assert_eq!(v.z(), 0.0f32.to_bits());
    assert_eq!(v.w(), f32::INFINITY.to_bits());
}

#[test]
fn scalar_comparisons_match_ieee() {
    for &a in &sample_values() {
        assert_eq!(is_nan_bits(a.to_bits()), a.is_nan());
        for &b in &sample_values() {
            assert_eq!(lt_bits(a.to_bits(), b.to_bits()), a < b, "lt {a} {b}");
            assert_eq!(eq_bits(a.to_bits(), b.to_bits()), a == b, "eq {a} {b}");
        }
    }
}

#[test]
fn scalar_max_matches_ieee() {
    for &a in &sample_values() {
        for &b in &sample_values() {
            let ours = f32::from_bits(max_bits(a.to_bits(), b.to_bits()));
            let std_max = a.max(b);
            assert!(same_value(ours, std_max), "max {a} {b}: {ours} vs {std_max}");
        }
    }
}

#[test]
fn scalar_min_matches_ieee() {
    for &a in &sample_values() {
        for &b in &sample_values() {
            let ours = f32::from_bits(min_bits(a.to_bits(), b.to_bits()));
            let std_min = a.min(b);
            assert!(same_value(ours, std_min), "min {a} {b}: {ours} vs {std_min}");
        }
    }
}

#[test]
fn max_exact_values() {
    assert_eq!(
        max_bits(1.0f32.to_bits(), 2.0f32.to_bits()),
        2.0f32.to_bits()
    );
    assert_eq!(
        max_bits((-3.5f32).to_bits(), (-7.25f32).to_bits()),
        (-3.5f32).to_bits()
    );
    assert_eq!(
        max_bits(f32::NAN.to_bits(), 5.0f32.to_bits()),
        5.0f32.to_bits()
    );
    assert_eq!(
        max_bits(5.0f32.to_bits(), f32::NAN.to_bits()),
        5.0f32.to_bits()
    );
    assert_eq!(
        min_bits(1.0f32.to_bits(), 2.0f32.to_bits()),
        1.0f32.to_bits()
    );
    assert_eq!(
        min_bits(f32::NEG_INFINITY.to_bits(), 2.0f32.to_bits()),
        f32::NEG_INFINITY.to_bits()
    );
}

#[test]
fn vector_max_lane_matches_scalar_max() {
    let vals = sample_values();
    for w in vals.windows(4) {
        for u in vals.windows(4) {
            let a = Float4::new(
                w[0].to_bits(),
                w[1].to_bits(),
                w[2].to_bits(),
                w[3].to_bits(),
            );
            let b = Float4::new(
                u[0].to_bits(),
                u[1].to_bits(),
                u[2].to_bits(),
                u[3].to_bits(),
            );
            let m = a.max(&b);
            let n = a.min(&b);
            assert!(same_value(f32::from_bits(m.x()), w[0].max(u[0])));
            assert!(same_value(f32::from_bits(m.y()), w[1].max(u[1])));
            assert!(same_value(f32::from_bits(m.z()), w[2].max(u[2])));
            assert!(same_value(f32::from_bits(m.w()), w[3].max(u[3])));
            assert!(same_value(f32::from_bits(n.x()), w[0].min(u[0])));
            assert!(same_value(f32::from_bits(n.y()), w[1].min(u[1])));
            assert!(same_value(f32::from_bits(n.z()), w[2].min(u[2])));
            assert!(same_value(f32::from_bits(n.w()), w[3].min(u[3])));
        }
    }
}

#[test]
fn elementwise_equality() {
    let v = Float4::new(
        0.0f32.to_bits(),
        1.0f32.to_bits(),
        2.0f32.to_bits(),
        3.0f32.to_bits(),
    );
    let negzero = Float4::new(
        (-0.0f32).to_bits(),
        1.0f32.to_bits(),
        2.0f32.to_bits(),
        3.0f32.to_bits(),
    );
    // the two zero encodings are equal as values, not as bits
    assert!(v.eq_elements(&negzero));
    assert_ne!(v, negzero);
    // a NaN lane is equal to nothing, itself included
    let nan = Float4::new(
        f32::NAN.to_bits(),
        1.0f32.to_bits(),
        2.0f32.to_bits(),
        3.0f32.to_bits(),
    );
    assert!(!nan.eq_elements(&nan));
}
