use fan_controller::degrees::Degrees;

#[test]
fn from_int_scales_by_4096() {
    assert_eq!(Degrees::from_int(50).0, 204_800);
    assert_eq!(Degrees::from_int(0).0, 0);
    assert_eq!(Degrees::from_int(-1).0, -4096);
    assert_eq!(Degrees::from_int(128).0, 524_288);
}

#[test]
fn convert_mid_scale_is_exact() {
    // 2048 is mid-scale: the divider reads half of full scale, so the
    // thermistor resistance equals the 10k reference, about 23 degrees.
    assert_eq!(Degrees::from_raw(2048).0, 94_324);
}

#[test]
fn convert_is_deterministic() {
    for _ in 0..3 {
        assert_eq!(Degrees::from_raw(2048).0, 94_324);
    }
}

#[test]
fn convert_known_points() {
    assert_eq!(Degrees::from_raw(0).0, 269_324);
    assert_eq!(Degrees::from_raw(1000).0, 212_799);
    assert_eq!(Degrees::from_raw(2000).0, 102_339);
    assert_eq!(Degrees::from_raw(3000).0, -209_691);
}

#[test]
fn convert_full_scale_is_extreme_but_defined() {
    assert_eq!(Degrees::from_raw(4095).0, -716_355_676);
}

#[test]
fn convert_is_antitone_on_samples() {
    let probes = [0u16, 1, 100, 500, 1000, 2047, 2048, 3000, 4094, 4095];
    for pair in probes.windows(2) {
        let lo = Degrees::from_raw(pair[0]).0;
        let hi = Degrees::from_raw(pair[1]).0;
        assert!(lo >= hi, "convert({}) < convert({})", pair[0], pair[1]);
    }
}

#[test]
fn to_u32_clamps_negative_readings() {
    assert_eq!(Degrees(-5).to_u32(), 0);
    assert_eq!(Degrees(0).to_u32(), 0);
    assert_eq!(Degrees(94_324).to_u32(), 94_324);
}

#[test]
fn from_u32_saturates_at_i32_max() {
    assert_eq!(Degrees::from_u32(5).0, 5);
    assert_eq!(Degrees::from_u32(u32::MAX).0, i32::MAX);
    assert_eq!(Degrees::from_u32(i32::MAX as u32).0, i32::MAX);
}

#[test]
fn whole_degrees_floors() {
    assert_eq!(Degrees(94_324).whole_degrees(), 23);
    assert_eq!(Degrees(204_800).whole_degrees(), 50);
    assert_eq!(Degrees(-4799).whole_degrees(), -2);
    assert_eq!(Degrees(-4096).whole_degrees(), -1);
    assert_eq!(Degrees(4095).whole_degrees(), 0);
}
