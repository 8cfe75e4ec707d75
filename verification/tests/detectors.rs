use prism_firmware::dsp::cycle_detector::{CycleDetectInfo, CycleDetector, CycleInfo};
use prism_firmware::dsp::gate::Gate;
use prism_firmware::dsp::level::{Level, Sign};
use prism_firmware::dsp::zero::ZeroDetector;

#[test]
fn gate_reports_its_state() {
    assert!(Gate::On.on());
    assert!(!Gate::On.off());
    assert!(Gate::Off.off());
    assert!(!Gate::Off.on());
}

#[test]
fn gate_toggles_between_its_two_states() {
    let mut g = Gate::Off;
    g.toggle();
    assert_eq!(g, Gate::On);
    g.toggle();
    assert_eq!(g, Gate::Off);
}

#[test]
fn fresh_gate_is_closed() {
    assert_eq!(Gate::default(), Gate::Off);
}

#[test]
fn sign_negation_and_product() {
    assert_eq!(Sign::Positive.negate(), Sign::Negative);
    assert_eq!(Sign::Negative.negate(), Sign::Positive);
    assert_eq!(Sign::Zero.negate(), Sign::Zero);
    assert_eq!(Sign::Positive.multiply(Sign::Positive), Sign::Positive);
    assert_eq!(Sign::Negative.multiply(Sign::Negative), Sign::Positive);
    assert_eq!(Sign::Positive.multiply(Sign::Negative), Sign::Negative);
    assert_eq!(Sign::Negative.multiply(Sign::Positive), Sign::Negative);
    assert_eq!(Sign::Zero.multiply(Sign::Negative), Sign::Zero);
    assert_eq!(Sign::Positive.multiply(Sign::Zero), Sign::Zero);
}

#[test]
fn opposite_signs_cross_zero() {
    for s in [Sign::Positive, Sign::Negative] {
        for before in [Sign::Positive, Sign::Zero, Sign::Negative] {
            let mut d = ZeroDetector::new();
            d.process(before);
            d.process(s);
            assert!(d.process(s.negate()));
        }
    }
}

#[test]
fn zero_sample_always_crosses() {
    for before in [Sign::Positive, Sign::Zero, Sign::Negative] {
        let mut d = ZeroDetector::new();
        d.process(before);
        assert!(d.process(Sign::Zero));
        assert!(d.process(Sign::Positive));
    }
}

#[test]
fn first_sample_crosses_because_a_fresh_detector_has_seen_zero() {
    assert!(ZeroDetector::new().process(Sign::Positive));
    assert!(ZeroDetector::new().process(Sign::Negative));
    assert!(ZeroDetector::new().process(Sign::Zero));
}

#[test]
fn same_sign_does_not_cross() {
    let mut d = ZeroDetector::new();
    d.process(Sign::Positive);
    assert!(!d.process(Sign::Positive));
    assert!(!d.process(Sign::Positive));
    assert!(d.process(Sign::Negative));
    assert!(!d.process(Sign::Negative));
}

fn info(length: u32, start: bool) -> CycleDetectInfo {
    CycleDetectInfo { length, start }
}

#[test]
fn detector_starts_when_the_upper_gate_opens() {
    let mut d = CycleDetector::new();
    assert_eq!(d.process(Level::At, Level::At), info(0, false));
    assert_eq!(d.process(Level::Below, Level::At), info(0, false));
    // two samples were counted before the first start
    assert_eq!(d.process(Level::Above, Level::Above), info(2, true));
    // the cycle is open: staying above starts nothing
    assert_eq!(d.process(Level::Above, Level::Above), info(2, false));
    // the upper gate closes and opens again, but the lower one never opened
    assert_eq!(d.process(Level::Below, Level::At), info(2, false));
    assert_eq!(d.process(Level::Above, Level::At), info(2, false));
    // the lower gate opens: the cycle closes
    assert_eq!(d.process(Level::Below, Level::Below), info(2, false));
    assert_eq!(d.process(Level::At, Level::Above), info(2, false));
    // the next opening of the upper gate starts a period of six samples
    assert_eq!(d.process(Level::Above, Level::Above), info(6, true));
    assert_eq!(d.process(Level::At, Level::At), info(6, false));
}

#[test]
fn equal_levels_move_no_gate() {
    let mut d = CycleDetector::new();
    for _ in 0..10 {
        assert_eq!(d.process(Level::At, Level::At), info(0, false));
    }
    assert_eq!(d.process(Level::Above, Level::At), info(10, true));
}

#[test]
fn start_and_lower_opening_on_the_same_sample() {
    let mut d = CycleDetector::new();
    // both gates open at once: the period starts and the cycle stays open
    assert_eq!(d.process(Level::Above, Level::Below), info(0, true));
    // the lower gate is open already, so it cannot open: no close, no start
    assert_eq!(d.process(Level::Below, Level::Below), info(0, false));
    assert_eq!(d.process(Level::Above, Level::Below), info(0, false));
    // close and reopen the lower gate, then the upper one
    assert_eq!(d.process(Level::Below, Level::Above), info(0, false));
    assert_eq!(d.process(Level::Below, Level::Below), info(0, false));
    assert_eq!(d.process(Level::Above, Level::Above), info(5, true));
}

#[test]
fn short_name_is_the_same_report() {
    let a: CycleInfo = CycleDetectInfo { length: 3, start: true };
    assert_eq!(a, info(3, true));
}

struct Envelope {
    rise: f32,
    fall: f32,
    value: f32,
}

impl Envelope {
    fn process(&mut self, x: f32) -> f32 {
        let rate = if x > self.value { self.rise } else { self.fall };
        self.value += rate * (x - self.value);
        self.value
    }
}

fn level(v: f32, threshold: f32) -> Level {
    if v > threshold {
        Level::Above
    } else if v < threshold {
        Level::Below
    } else {
        Level::At
    }
}

fn starts_on_sinusoid(period: usize, periods: usize, decay: Option<f32>) -> Vec<(usize, u32)> {
    let mut high_env = Envelope { rise: 0.1, fall: 0.0001, value: 0.0 };
    let mut low_env = Envelope { rise: 0.0001, fall: 0.1, value: 0.0 };
    let mut lpf_value = 0.0f32;
    let mut lpf_prev = 0.0f32;
    let mut detector = CycleDetector::new();
    let mut starts = Vec::new();
    for n in 0..period * periods {
        let x = (2.0 * std::f64::consts::PI * n as f64 / period as f64).sin() as f32;
        let v = match decay {
            Some(decay) => {
                lpf_value += decay * (0.5 * (x + lpf_prev) - lpf_value);
                lpf_prev = x;
                lpf_value
            }
            None => x,
        };
        let high = high_env.process(v.max(0.0));
        let low = low_env.process(v.min(0.0));
        let info = detector.process(level(v, high), level(v, low));
        if info.start {
            starts.push((n, info.length));
        }
    }
    starts
}

fn check_once_per_period(period: usize, starts: &[(usize, u32)], periods: usize) {
    assert_eq!(starts.len(), periods);
    for k in 2..starts.len() {
        let (at, length) = starts[k];
        let (before, _) = starts[k - 1];
        assert_eq!(length as usize, at - before);
        assert!(length as usize + 1 >= period && length as usize <= period + 1);
    }
}

#[test]
fn sinusoid_starts_once_per_period() {
    let starts = starts_on_sinusoid(480, 20, None);
    check_once_per_period(480, &starts, 20);
}

#[test]
fn filtered_sinusoid_starts_once_per_period() {
    let decay = 1.0 - (-2.0 * std::f32::consts::PI * 2000.0 / 48000.0).exp();
    let starts = starts_on_sinusoid(480, 20, Some(decay));
    check_once_per_period(480, &starts, 20);
}

#[test]
fn reported_length_is_the_distance_between_starts() {
    for period in [64usize, 100, 200] {
        let starts = starts_on_sinusoid(period, 12, None);
        assert!(starts.len() >= 10);
        for k in 1..starts.len() {
            assert_eq!(starts[k].1 as usize, starts[k].0 - starts[k - 1].0);
        }
        let (_, last) = starts[starts.len() - 1];
        assert!(last as usize + 1 >= period && last as usize <= period + 1);
    }
}
