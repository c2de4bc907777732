use predict_agent::double;

#[test]
fn whole_part_of_doubles() {
    assert_eq!(double::to_u64(12.75f64.to_bits()), 12);
    assert_eq!(double::to_u64((-3.0f64).to_bits()), 0);
    assert_eq!(double::to_u64(1e30f64.to_bits()), u64::MAX);
    assert_eq!(double::to_u64(f64::NAN.to_bits()), 0);
    assert_eq!(double::to_u64(f64::INFINITY.to_bits()), u64::MAX);
    assert_eq!(double::to_u64(f64::NEG_INFINITY.to_bits()), 0);
    assert_eq!(double::to_u64(0.999f64.to_bits()), 0);
    assert_eq!(double::to_u64(9007199254740993.0f64.to_bits()), 9007199254740992);
}

#[test]
fn whole_part_is_what_a_cast_gives() {
    let mut x = 1.0e-5f64;
    while x < 1.0e25 {
        assert_eq!(double::to_u64(x.to_bits()), x as u64);
        assert_eq!(double::to_u64((-x).to_bits()), (-x) as u64);
        x *= 1.37;
    }
}

#[test]
fn one_half() {
    assert!(double::is_half(0.5f64.to_bits()));
    assert!(!double::is_half(0.5000000000000001f64.to_bits()));
    assert!(!double::is_half((-0.5f64).to_bits()));
    assert!(!double::is_half(f64::NAN.to_bits()));
}

#[test]
fn order_of_doubles() {
    let low = 0.01f64.to_bits();
    let high = 0.99f64.to_bits();
    for x in [0.01f64, 0.010000000000000002, 0.5, 0.99] {
        assert!(double::is_between(x.to_bits(), low, high), "{}", x);
    }
    for x in [0.0f64, -0.0, 0.009999999999999998, 0.9900000000000001, 1.0, -0.5, f64::NAN, f64::INFINITY] {
        assert!(!double::is_between(x.to_bits(), low, high), "{}", x);
    }
}
