use fan_controller::control::Coordinator;
use fan_controller::control::PWM_TICKS;
use fan_controller::degrees::Degrees;
use fan_controller::fancurve::FanCurve;
use fan_controller::pipeline::Pipeline;

#[test]
fn fresh_coordinator_reports_zero_pair() {
    let curve = FanCurve::new(1000, 200, Degrees::from_int(48), Degrees::from_int(35));
    let c = Coordinator::new(curve);
    let (temp, duty) = c.status();
    assert_eq!(temp.0, 0);
    assert_eq!(duty, 0);
}

#[test]
fn cycle_applies_curve_and_records_pair() {
    let curve = FanCurve::new(1000, 200, Degrees::from_int(48), Degrees::from_int(35));
    let mut c = Coordinator::new(curve);
    let t = Degrees::from_int(41);
    let duty = c.cycle(t);
    assert_eq!(duty, 569);
    let (seen, recorded) = c.status();
    assert_eq!(seen, t);
    assert_eq!(recorded, 569);
}

#[test]
fn full_loop_from_samples_to_duty() {
    // The whole path: transfer completion, boxcar average, conversion,
    // fan curve, report pair.
    let mut p = Pipeline::new();
    let token = p.start().unwrap();
    p.on_completion(&[1500u16; 32]);
    let temp = token.current_temp(&p);
    assert_eq!(temp.0, 168_206); // about 41.07 degrees

    let curve = FanCurve::new(1000, 200, Degrees::from_int(48), Degrees::from_int(35));
    let mut c = Coordinator::new(curve);
    let duty = c.cycle(temp);
    assert!((200..=1000).contains(&duty));
    assert!(duty <= PWM_TICKS as u16);
    let (seen, recorded) = c.status();
    assert_eq!(seen, temp);
    assert_eq!(recorded, duty);
}
