use fan_controller::dsp::Dsp;
use fan_controller::dsp::MovingAverage;

#[test]
fn fresh_filter_averages_in_zeros() {
    let mut ma = MovingAverage::new();
    // One sample of 64 against 31 zeros still in the window.
    assert_eq!(ma.update(64), 2);
}

#[test]
fn window_of_equal_samples_returns_the_sample() {
    let mut ma = MovingAverage::new();
    let mut last = 0;
    for _ in 0..32 {
        last = ma.update(2048);
    }
    assert_eq!(last, 2048);
}

#[test]
fn update_returns_floored_window_average() {
    let mut ma = MovingAverage::new();
    let mut fed: Vec<u32> = Vec::new();
    for i in 0..40u32 {
        let val = (i * 37) % 4096;
        let out = ma.update(val);
        fed.push(val);
        // Expected: the last 32 samples fed, zero-padded while short.
        let mut window = vec![0u32; 32];
        window.extend_from_slice(&fed);
        let tail = &window[window.len() - 32..];
        let sum: u32 = tail.iter().sum();
        assert_eq!(out, sum / 32, "after {} samples", i + 1);
    }
}

#[test]
fn window_forgets_older_history() {
    let mut ma = MovingAverage::new();
    for _ in 0..32 {
        ma.update(100);
    }
    // One newer sample displaces exactly one of the old ones.
    assert_eq!(ma.update(200), (31 * 100 + 200) / 32);
    let mut last = 0;
    for _ in 0..32 {
        last = ma.update(200);
    }
    // After a full window of 200s no trace of the 100s remains.
    assert_eq!(last, 200);
}

#[test]
fn filter_handles_largest_sample() {
    let mut ma = MovingAverage::new();
    let mut last = 0;
    for _ in 0..32 {
        last = ma.update(fan_controller::dsp::MAX_SAMPLE);
    }
    assert_eq!(last, fan_controller::dsp::MAX_SAMPLE);
}

#[test]
fn default_filter_matches_new() {
    let mut a = MovingAverage::new();
    let mut b = MovingAverage::default();
    assert_eq!(a.update(123), b.update(123));
}

#[test]
fn dsp_smooths_then_converts() {
    let mut dsp = Dsp::new();
    // 2048 against 31 zeros averages to 64; 64 converts to 266546.
    assert_eq!(dsp.read_temp(Some(2048)).0, 266_546);
}

#[test]
fn dsp_failed_read_converts_zero() {
    let mut dsp = Dsp::new();
    assert_eq!(dsp.read_temp(None).0, 269_324);
    // The failed read left the filter untouched.
    assert_eq!(dsp.read_temp(Some(2048)).0, 266_546);
}
