use interestingtech::color::Color;

fn rgba(r: f32, g: f32, b: f32, a: f32) -> Color {
    Color { r: r.to_bits(), g: g.to_bits(), b: b.to_bits(), a: a.to_bits() }
}

#[test]
fn solid_threshold_matches_float_comparison() {
    let alphas = [
        0.0f32,
        -0.0,
        0.25,
        0.49999997,
        0.5,
        0.50000006,
        0.75,
        1.0,
        2.0,
        f32::MAX,
        f32::INFINITY,
        f32::NEG_INFINITY,
        -0.5,
        -1.0,
        f32::NAN,
        -f32::NAN,
        f32::MIN_POSITIVE,
    ];
    for a in alphas {
        let c = rgba(0.3, 0.3, 0.3, a);
        assert_eq!(c.is_solid(), a >= 0.5, "alpha {a}");
    }
}

#[test]
fn zero_is_air_and_white_is_solid() {
    assert_eq!(Color::zero(), rgba(0.0, 0.0, 0.0, 0.0));
    assert!(!Color::zero().is_solid());
    assert_eq!(Color::white(), rgba(1.0, 1.0, 1.0, 1.0));
    assert!(Color::white().is_solid());
}
