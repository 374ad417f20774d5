use fan_controller::degrees::Degrees;
use fan_controller::fancurve::FanCurve;

fn test_curve() -> FanCurve {
    FanCurve::new(1000, 200, Degrees::from_int(48), Degrees::from_int(35))
}

#[test]
fn curve_hits_low_endpoint_exactly() {
    let mut c = test_curve();
    assert_eq!(c.fan_curve(Degrees::from_int(35)), 200);
}

#[test]
fn curve_hits_high_endpoint_exactly() {
    let mut c = test_curve();
    assert_eq!(c.fan_curve(Degrees::from_int(48)), 1000);
}

#[test]
fn curve_saturates_low() {
    let mut c = test_curve();
    assert_eq!(c.fan_curve(Degrees::from_int(20)), 200);
}

#[test]
fn curve_saturates_high() {
    let mut c = test_curve();
    assert_eq!(c.fan_curve(Degrees::from_int(60)), 1000);
}

#[test]
fn curve_midpoint_lands_on_line() {
    let mut c = test_curve();
    // 41.5 degrees in Q12; the linear midpoint of (35, 200)-(48, 1000).
    assert_eq!(c.fan_curve(Degrees(169_984)), 600);
}

#[test]
fn curve_stays_within_bounds() {
    let mut c = test_curve();
    for t in -50..130 {
        let duty = c.fan_curve(Degrees::from_int(t));
        assert!((200..=1000).contains(&duty), "duty {} at {}", duty, t);
    }
}

#[test]
fn flat_curve_returns_single_duty() {
    let mut c = FanCurve::new(500, 500, Degrees::from_int(48), Degrees::from_int(35));
    assert_eq!(c.fan_curve(Degrees::from_int(20)), 500);
    assert_eq!(c.fan_curve(Degrees::from_int(40)), 500);
    assert_eq!(c.fan_curve(Degrees::from_int(60)), 500);
}

#[test]
fn max_duty_is_exposed() {
    let c = test_curve();
    assert_eq!(c.max_duty, 1000);
}
