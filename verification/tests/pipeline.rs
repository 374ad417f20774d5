use fan_controller::degrees::Degrees;
use fan_controller::pipeline::Pipeline;

#[test]
fn reads_failsafe_before_first_completion() {
    let mut p = Pipeline::new();
    let t = p.start().unwrap();
    // No transfer has completed: exactly the documented 50-degree fail-safe.
    assert_eq!(t.current_temp(&p), Degrees::from_int(50));
    assert_eq!(t.current_temp(&p).0, 204_800);
}

#[test]
fn first_completion_ends_the_failsafe_for_good() {
    let mut p = Pipeline::new();
    let t = p.start().unwrap();
    p.on_completion(&[2048u16; 32]);
    // Boxcar average of 32 mid-scale samples is 2048; converted, 94324.
    assert_eq!(t.current_temp(&p).0, 94_324);
    // Later transfers keep reading the buffer, never the fail-safe — even
    // for contents whose conversion is far from it.
    p.on_completion(&[0u16; 32]);
    assert_eq!(t.current_temp(&p).0, 269_324);
    p.on_completion(&[4095u16; 32]);
    assert_eq!(t.current_temp(&p).0, -716_355_676);
}

#[test]
fn boxcar_averages_mixed_buffer() {
    let mut p = Pipeline::new();
    let t = p.start().unwrap();
    let mut samples = [0u16; 32];
    for (i, s) in samples.iter_mut().enumerate() {
        *s = (i as u16) * 100; // 0, 100, ..., 3100; sum 49600; mean 1550
    }
    p.on_completion(&samples);
    assert_eq!(t.current_temp(&p), Degrees::from_raw(1550));
}

#[test]
fn repeated_completions_read_the_same() {
    let mut p = Pipeline::new();
    let t = p.start().unwrap();
    let samples = [1234u16; 32];
    p.on_completion(&samples);
    let first = t.current_temp(&p);
    for _ in 0..5 {
        p.on_completion(&samples);
        assert_eq!(t.current_temp(&p), first);
    }
}

#[test]
fn pipeline_is_a_singleton() {
    let mut p = Pipeline::new();
    let t = p.start().unwrap();
    assert!(p.start().is_none());
    p.release(t);
    // After release a fresh start succeeds, and the buffer is distrusted.
    let t2 = p.start().unwrap();
    assert_eq!(t2.current_temp(&p).0, 204_800);
}

#[test]
fn release_clears_validity() {
    let mut p = Pipeline::new();
    let t = p.start().unwrap();
    p.on_completion(&[2048u16; 32]);
    assert_eq!(t.current_temp(&p).0, 94_324);
    p.release(t);
    let t2 = p.start().unwrap();
    assert_eq!(t2.current_temp(&p).0, 204_800);
}

#[test]
fn heartbeat_toggles_every_other_completion() {
    let mut p = Pipeline::new();
    let _t = p.start().unwrap();
    assert!(!p.heartbeat_level());
    let samples = [0u16; 32];
    p.on_completion(&samples);
    assert!(!p.heartbeat_level());
    p.on_completion(&samples);
    assert!(p.heartbeat_level());
    p.on_completion(&samples);
    assert!(p.heartbeat_level());
    p.on_completion(&samples);
    assert!(!p.heartbeat_level());
    assert_eq!(p.completed_transfers(), 4);
}
