use std::f64::consts::PI;

use sstv::synth::SampleGenerator;

/// The waveform value a phase numerator stands for, at the given rate.
fn sample_of(phase: u64, rate: u32) -> f64 {
    (2.0 * PI * phase as f64 / (1000.0 * rate as f64)).sin()
}

#[test]
fn one_millisecond_at_8khz() {
    // 1000 Hz for 1 ms at 8000 samples/s: exactly 8 samples, the i-th equal
    // to sin(2π · 1000 · i / 8000).
    let mut sg = SampleGenerator::new(8000);
    let phases = sg.consume(1_000_000, 1_000_000);
    assert_eq!(phases.len(), 8);
    for (i, p) in phases.iter().enumerate() {
        assert_eq!(*p, (i as u64) * 1_000_000 % 8_000_000);
        let expected = (2.0 * PI * 1000.0 * i as f64 / 8000.0).sin();
        assert!((sample_of(*p, 8000) - expected).abs() < 1e-12);
    }
}

#[test]
fn fractional_carry_accumulates() {
    // At 8000 samples/s, 62.5 µs is half a sample: the first event emits
    // nothing and carries the half; the second event completes one sample.
    let mut sg = SampleGenerator::new(8000);
    let first = sg.consume(1_000_000, 62_500);
    assert_eq!(first.len(), 0);
    let second = sg.consume(1_000_000, 62_500);
    assert_eq!(second.len(), 1);
}

#[test]
fn truncation_never_drifts() {
    // 1000 events of 1/3 ms at 8000 samples/s: 8000/3 samples per event.
    // The total must be the floor of the exact sum, not of per-event floors.
    let mut sg = SampleGenerator::new(8000);
    let mut total = 0usize;
    for _ in 0..1000 {
        total += sg.consume(440_000, 333_333).len();
    }
    // 8000 * 333_333_000 ns / 1e9 ns = 2666.664 samples per event.
    let exact = 8000u128 * 333_333 * 1000 / 1_000_000_000;
    assert_eq!(total as u128, exact);
}

#[test]
fn phase_advances_one_extra_step() {
    // Two 1 ms events at one frequency emit together as many samples as one
    // 2 ms event, and the second event continues the combined phase grid
    // one step ahead of where the first stopped.
    let mut two = SampleGenerator::new(8000);
    let a = two.consume(1_000_000, 1_000_000);
    let b = two.consume(1_000_000, 1_000_000);
    let mut one = SampleGenerator::new(8000);
    let c = one.consume(1_000_000, 2_000_000);
    assert_eq!(a.len() + b.len(), c.len());
    assert_eq!(a[..], c[..a.len()]);
    let t1 = a.len() as u64;
    for (i, p) in b.iter().enumerate() {
        assert_eq!(*p, (t1 + 1 + i as u64) * 1_000_000 % 8_000_000);
    }
}

#[test]
fn zero_duration_emits_nothing() {
    let mut sg = SampleGenerator::new(44_100);
    let phases = sg.consume(2_300_000, 0);
    assert_eq!(phases.len(), 0);
    // The phase still pre-advances by one step of the event's frequency.
    let next = sg.consume(0, 1_000_000);
    assert!(!next.is_empty());
}

#[test]
fn zero_frequency_is_constant() {
    // A 0 Hz tone from a fresh generator holds phase zero: a silent waveform.
    let mut sg = SampleGenerator::new(8000);
    let phases = sg.consume(0, 5_000_000);
    assert_eq!(phases.len(), 40);
    for p in &phases {
        assert_eq!(*p, 0);
        assert_eq!(sample_of(*p, 8000), 0.0);
    }
}

#[test]
fn phase_stays_reduced() {
    // Long streams keep every phase numerator below one cycle.
    let mut sg = SampleGenerator::new(11_025);
    for _ in 0..50 {
        for p in sg.consume(1_900_000, 300_000_000) {
            assert!(p < 1000 * 11_025);
        }
    }
}
