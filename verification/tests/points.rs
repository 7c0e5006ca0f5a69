use pathgeom::float2::Float2;

#[test]
fn point_accessors_return_what_was_stored() {
    let cases: Vec<(f32, f32)> = vec![
        (0.0, 0.0),
        (1.5, -2.25),
        (f32::NAN, f32::INFINITY),
        (-0.0, f32::MIN_POSITIVE),
    ];
    for (a, b) in cases {
        let p = Float2::new(a.to_bits(), b.to_bits());
        assert_eq!(p.x(), a.to_bits());
        assert_eq!(p.y(), b.to_bits());
    }
}

#[test]
fn point_ieee_equality() {
    let zero = Float2::new(0.0f32.to_bits(), 1.0f32.to_bits());
    let negzero = Float2::new((-0.0f32).to_bits(), 1.0f32.to_bits());
    assert!(zero.ieee_eq(negzero));
    assert_ne!(zero, negzero);

    let nan = Float2::new(f32::NAN.to_bits(), 1.0f32.to_bits());
    assert!(!nan.ieee_eq(nan));

    let p = Float2::new(2.0f32.to_bits(), 3.0f32.to_bits());
    let q = Float2::new(2.0f32.to_bits(), 4.0f32.to_bits());
    assert!(!p.ieee_eq(q));
    assert!(p.ieee_eq(p));
}
