use std::time::Duration;

use hex_motor::cia402::velocity::{FilterStep, FilterSums, VelocityEstimator};
use hex_motor::number::Real32;

const WIN: Duration = Duration::from_millis(20);

/// The filter with its floating-point part.
#[derive(Default)]
struct Estimator {
    filter: VelocityEstimator,
}

impl Estimator {
    fn update(&mut self, ts_us: u32, pos_rev: f32, window: Duration) -> Option<f32> {
        let mut sums = FilterSums { time_s: 0, pos: 0, cutoff: None };
        if let FilterStep::Extend { dt_us, last_raw_pos } = self.filter.step(ts_us) {
            let mut dpos = (pos_rev - f32::from_bits(last_raw_pos.bits)) as f64;
            if dpos > 0.5 {
                dpos -= 1.0;
            } else if dpos < -0.5 {
                dpos += 1.0;
            }
            let time_s = f64::from_bits(self.filter.accum_time_s) + dt_us as f64 * 1e-6;
            let pos = f64::from_bits(self.filter.accum_pos) + dpos;
            let cutoff = time_s - window.as_secs_f64();
            sums = FilterSums {
                time_s: time_s.to_bits(),
                pos: pos.to_bits(),
                cutoff: if cutoff > 0.0 { Some(cutoff.to_bits()) } else { None },
            };
        }
        if !self.filter.update(ts_us, Real32::from_bits(pos_rev.to_bits()), sums) {
            return None;
        }
        let n = self.filter.samples.len() as f64;
        let (mut st, mut sp, mut stt, mut stp) = (0.0f64, 0.0f64, 0.0f64, 0.0f64);
        for &(t, p) in &self.filter.samples {
            let (t, p) = (f64::from_bits(t), f64::from_bits(p));
            st += t;
            sp += p;
            stt += t * t;
            stp += t * p;
        }
        let denom = n * stt - st * st;
        if denom.abs() < 1e-12 {
            return None;
        }
        Some(((n * stp - st * sp) / denom) as f32)
    }
}

#[test]
fn first_sample_returns_none() {
    let mut e = Estimator::default();
    assert!(e.update(1000, 0.0, WIN).is_none());
}

#[test]
fn constant_velocity_recovered() {
    let mut e = Estimator::default();
    let mut pos: f32 = 0.0;
    let mut v = None;
    for i in 1..=50u32 {
        pos += 0.0003;
        if pos >= 0.5 {
            pos -= 1.0;
        }
        v = e.update(i * 1000, pos, WIN);
    }
    let v = v.expect("should have a velocity after warmup");
    assert!((v - 0.3).abs() < 1e-3, "v={v}");
}

#[test]
fn handles_single_turn_wrap() {
    let mut e = Estimator::default();
    e.update(1000, 0.49, WIN);
    let v = e.update(2000, -0.49, WIN);
    let v = v.expect("some velocity");
    assert!(v > 0.0, "wrap should give positive velocity, got {v}");
    assert!((v - 20.0).abs() < 1.0, "v={v}");
}

#[test]
fn large_gap_resets() {
    let mut e = Estimator::default();
    e.update(1000, 0.0, WIN);
    e.update(2000, 0.001, WIN);
    assert!(e.update(2000 + 1_000_000, 0.5, WIN).is_none());
}

#[test]
fn timestamp_wraparound_is_handled() {
    let mut e = Estimator::default();
    let near_max = u32::MAX - 500;
    e.update(near_max, 0.0, WIN);
    let v = e.update(near_max.wrapping_add(1000), 0.0003, WIN);
    let v = v.expect("velocity across wrap");
    assert!((v - 0.3).abs() < 1e-2, "v={v}");
}

fn pos(bits: u32) -> Real32 {
    Real32::from_bits(bits)
}

#[test]
fn gaps_and_repeats_start_anew() {
    let mut f = VelocityEstimator::default();
    assert_eq!(f.step(5), FilterStep::Restart);
    let sums = FilterSums { time_s: 7, pos: 8, cutoff: None };
    assert!(!f.update(1_000, pos(1), sums));
    assert_eq!(f.samples.iter().copied().collect::<Vec<_>>(), vec![(0, 0)]);
    assert_eq!(f.step(1_000), FilterStep::Restart);
    assert_eq!(f.step(1_001), FilterStep::Extend { dt_us: 1, last_raw_pos: pos(1) });
    assert_eq!(f.step(501_000), FilterStep::Extend { dt_us: 500_000, last_raw_pos: pos(1) });
    assert_eq!(f.step(501_001), FilterStep::Restart);
    assert_eq!(f.step(999), FilterStep::Restart);
    assert!(f.update(2_000, pos(2), sums));
    assert_eq!(f.samples.iter().copied().collect::<Vec<_>>(), vec![(0, 0), (7, 8)]);
    assert_eq!((f.accum_time_s, f.accum_pos), (7, 8));
    assert!(!f.update(2_000, pos(3), sums));
    assert_eq!(f.samples.len(), 1);
    assert_eq!(f.last_raw_pos, Some(pos(3)));
}

#[test]
fn the_window_keeps_two_samples_at_least() {
    let mut f = VelocityEstimator::default();
    f.update(0, pos(0), FilterSums { time_s: 0, pos: 0, cutoff: None });
    for i in 1..=5u64 {
        let sums = FilterSums { time_s: 10 * i, pos: i, cutoff: None };
        assert!(f.update(1_000 * i as u32, pos(0), sums));
    }
    assert_eq!(f.samples.len(), 6);
    let sums = FilterSums { time_s: 60, pos: 6, cutoff: Some(30) };
    assert!(f.update(6_000, pos(0), sums));
    let times: Vec<u64> = f.samples.iter().map(|s| s.0).collect();
    assert_eq!(times, vec![30, 40, 50, 60]);
    let sums = FilterSums { time_s: 70, pos: 7, cutoff: Some(1_000) };
    assert!(f.update(7_000, pos(0), sums));
    let times: Vec<u64> = f.samples.iter().map(|s| s.0).collect();
    assert_eq!(times, vec![60, 70]);
}
