//! The phase-continuous sample synthesizer.
//!
//! A generator is built for a sample rate and consumes tone events one at a
//! time.  For each event it decides how many samples to emit and at which
//! phase each one stands.  All of that is exact integer arithmetic: elapsed
//! time is accounted in units of 10⁻⁹ samples, and a sample's phase is the
//! fraction `numerator / (1000 · rate)` of one full cycle — the waveform
//! value is `sin(2π · numerator / (1000 · rate))`, which the caller computes.
//! Because the sine is periodic in whole cycles, every phase numerator is
//! kept reduced modulo one cycle, so nothing ever drifts or overflows.
//!
//! The generator advances its phase by one step more than the number of
//! samples it emits — each event begins one grid step past the previous
//! event's last sample.  That pre-advance is deliberate and is stated, not
//! hidden, by the contracts below.

use vstd::prelude::*;

verus! {

/// The carry denominator: one sample, in units of 10⁻⁹ samples.
pub const CARRY_DEN: u64 = 1_000_000_000;

/// How many samples a tone of `dur` time units adds, given the carry so far.
/// Time is counted so that `rate * dur` is in units of 10⁻⁹ samples.
pub open spec fn spec_event_samples(carry: int, rate: int, dur: int) -> int {
    (carry + rate * dur) / (CARRY_DEN as int)
}

/// The fractional sample time left over after an event.
pub open spec fn spec_next_carry(carry: int, rate: int, dur: int) -> int {
    (carry + rate * dur) % (CARRY_DEN as int)
}

/// The phase numerator of grid index `i` of an oscillator that starts at
/// `phase0` and steps by `freq` per sample, reduced to one cycle of `den`.
pub open spec fn spec_phase_at(phase0: int, freq: int, i: int, den: int) -> int {
    (phase0 + i * freq) % den
}

/// The phase an event leaves behind: `tx` emitted samples plus the one-step
/// pre-advance into the next event.
pub open spec fn spec_next_phase(phase0: int, freq: int, tx: int, den: int) -> int {
    (phase0 + (tx + 1) * freq) % den
}

/// The sum of a sequence of durations.
pub open spec fn spec_sum(durs: Seq<int>) -> int
    decreases durs.len(),
{
    if durs.len() == 0 {
        0
    } else {
        durs[0] + spec_sum(durs.drop_first())
    }
}

/// How many samples a generator emits over a whole sequence of events,
/// threading the carry from one event into the next.
pub open spec fn spec_total_samples(carry: int, rate: int, durs: Seq<int>) -> int
    decreases durs.len(),
{
    if durs.len() == 0 {
        0
    } else {
        spec_event_samples(carry, rate, durs[0]) + spec_total_samples(
            spec_next_carry(carry, rate, durs[0]),
            rate,
            durs.drop_first(),
        )
    }
}

/// Sample-count law: over any run of consecutive events, the emitted sample
/// counts add up to exactly the floor of the total elapsed time in samples —
/// the per-event truncations never drift, because the carry keeps every
/// discarded fraction.
pub proof fn lemma_total_sample_count(carry: int, rate: int, durs: Seq<int>)
    requires
        0 <= carry < CARRY_DEN,
        rate >= 0,
        forall|i: int| 0 <= i < durs.len() ==> durs[i] >= 0,
    ensures
        spec_total_samples(carry, rate, durs) == (carry + rate * spec_sum(durs)) / (
        CARRY_DEN as int),
    decreases durs.len(),
{
    let m = CARRY_DEN as int;
    if durs.len() == 0 {
        assert(rate * 0 == 0) by (nonlinear_arith);
        vstd::arithmetic::div_mod::lemma_basic_div(carry, m);
    } else {
        let d0 = durs[0];
        let rest = durs.drop_first();
        let t = carry + rate * d0;
        let t1 = spec_event_samples(carry, rate, d0);
        let c1 = spec_next_carry(carry, rate, d0);
        assert(rate * d0 >= 0) by (nonlinear_arith)
            requires
                rate >= 0,
                d0 >= 0,
        ;
        vstd::arithmetic::div_mod::lemma_fundamental_div_mod(t, m);
        vstd::arithmetic::div_mod::lemma_mod_division_less_than_divisor(t, m);
        vstd::arithmetic::div_mod::lemma_div_pos_is_pos(t, m);
        assert(forall|i: int| 0 <= i < rest.len() ==> rest[i] >= 0);
        lemma_total_sample_count(c1, rate, rest);
        let s = spec_sum(rest);
        lemma_sum_nonneg(rest);
        assert(rate * s >= 0) by (nonlinear_arith)
            requires
                rate >= 0,
                s >= 0,
        ;
        // carry + rate * (d0 + s) == m * t1 + (c1 + rate * s)
        assert(rate * (d0 + s) == rate * d0 + rate * s) by (nonlinear_arith);
        // (x + t1 * m) / m == x / m + t1
        vstd::arithmetic::div_mod::lemma_hoist_over_denominator(c1 + rate * s, t1, m as nat);
        assert(t1 * m == m * t1) by (nonlinear_arith);
        assert(spec_sum(durs) == d0 + s);
    }
}

/// Every duration nonnegative makes the sum nonnegative.
proof fn lemma_sum_nonneg(durs: Seq<int>)
    requires
        forall|i: int| 0 <= i < durs.len() ==> durs[i] >= 0,
    ensures
        spec_sum(durs) >= 0,
    decreases durs.len(),
{
    if durs.len() > 0 {
        lemma_sum_nonneg(durs.drop_first());
    }
}

/// Phase-continuity law: two consecutive events at one frequency sample the
/// same uninterrupted oscillator as a single event of the combined duration.
/// The counts agree exactly — the two calls together emit just as many
/// samples as the one combined call — and the second call's sample `i`
/// stands on the combined phase grid at index `t1 + 1 + i`: the waveform
/// carries straight on, one grid step being skipped at the boundary by the
/// generator's deliberate pre-advance.
pub proof fn lemma_phase_continuity(
    carry: int,
    phase: int,
    rate: int,
    freq: int,
    d1: int,
    d2: int,
)
    requires
        0 <= carry < CARRY_DEN,
        rate >= 1,
        0 <= phase,
        freq >= 0,
        d1 >= 0,
        d2 >= 0,
    ensures
        ({
            let den = 1000 * rate;
            let t1 = spec_event_samples(carry, rate, d1);
            let c1 = spec_next_carry(carry, rate, d1);
            let p1 = spec_next_phase(phase, freq, t1, den);
            let t2 = spec_event_samples(c1, rate, d2);
            &&& t1 + t2 == spec_event_samples(carry, rate, d1 + d2)
            &&& forall|i: int|
                0 <= i < t2 ==> spec_phase_at(p1, freq, i, den) == spec_phase_at(
                    phase,
                    freq,
                    t1 + 1 + i,
                    den,
                )
        }),
{
    let m = CARRY_DEN as int;
    let den = 1000 * rate;
    let t1 = spec_event_samples(carry, rate, d1);
    let c1 = spec_next_carry(carry, rate, d1);
    let p1 = spec_next_phase(phase, freq, t1, den);
    let t2 = spec_event_samples(c1, rate, d2);
    // counts
    let t = carry + rate * d1;
    assert(rate * d1 >= 0) by (nonlinear_arith)
        requires
            rate >= 0,
            d1 >= 0,
    ;
    assert(rate * d2 >= 0) by (nonlinear_arith)
        requires
            rate >= 0,
            d2 >= 0,
    ;
    vstd::arithmetic::div_mod::lemma_fundamental_div_mod(t, m);
    vstd::arithmetic::div_mod::lemma_div_pos_is_pos(t, m);
    assert(rate * (d1 + d2) == rate * d1 + rate * d2) by (nonlinear_arith);
    vstd::arithmetic::div_mod::lemma_hoist_over_denominator(c1 + rate * d2, t1, m as nat);
    assert(t1 * m == m * t1) by (nonlinear_arith);
    assert(t1 + t2 == spec_event_samples(carry, rate, d1 + d2));
    // phases
    assert forall|i: int| 0 <= i < t2 implies spec_phase_at(p1, freq, i, den) == spec_phase_at(
        phase,
        freq,
        t1 + 1 + i,
        den,
    ) by {
        let x = phase + (t1 + 1) * freq;
        assert(i * freq >= 0) by (nonlinear_arith)
            requires
                i >= 0,
                freq >= 0,
        ;
        // (x % den + i * freq) % den == (x + i * freq) % den
        assert((x % den + i * freq) % den == (x + i * freq) % den) by {
            assert((x % den + (i * freq) % den) % den == (x % den + i * freq) % den) by {
                vstd::arithmetic::div_mod::lemma_add_mod_noop_right(x % den, i * freq, den);
            }
            assert(((x % den) % den + (i * freq) % den) % den == (x % den + (i * freq) % den)
                % den) by {
                vstd::arithmetic::div_mod::lemma_mod_twice(x, den);
            }
            vstd::arithmetic::div_mod::lemma_add_mod_noop(x, i * freq, den);
        }
        assert((t1 + 1) * freq + i * freq == (t1 + 1 + i) * freq) by (nonlinear_arith);
    }
}

/// Turns tone events into the phase grid of a continuous oscillator.
pub struct SampleGenerator {
    /// Samples per second; fixed for the generator's lifetime.
    pub rate: u32,
    /// Fractional elapsed time not yet covered by an emitted sample, in
    /// units of 10⁻⁹ samples; always below one sample.
    pub carry: u64,
    /// Phase numerator at which the next event begins, in cycle units over
    /// `1000 · rate`; always reduced below one cycle.
    pub phase: u64,
}

impl SampleGenerator {
    /// One full cycle, as a phase denominator: frequencies are in millihertz,
    /// so one sample at `freq` advances the phase by `freq / (1000 · rate)`
    /// cycles.
    pub open spec fn spec_den(self) -> int {
        1000 * self.rate as int
    }

    /// The generator's invariant: a positive rate, and both accumulators
    /// reduced below their unit.
    pub open spec fn wf(self) -> bool {
        &&& self.rate >= 1
        &&& self.carry < CARRY_DEN
        &&& self.phase < self.spec_den()
    }

    /// A fresh generator at the given sample rate, at phase zero with no
    /// fractional time carried.
    pub fn new(samples_per_second: u32) -> (r: SampleGenerator)
        requires
            samples_per_second >= 1,
        ensures
            r.wf(),
            r.rate == samples_per_second,
            r.carry == 0,
            r.phase == 0,
    {
        SampleGenerator { rate: samples_per_second, carry: 0, phase: 0 }
    }

    /// Consumes one tone event and returns the phase numerator of every
    /// sample it emits, in order.  Exactly the elapsed time's worth of
    /// samples come out: one per whole sample of `carry + rate · dur_ns`
    /// nanosamples, the remainder staying in the carry.  Sample `i` stands at
    /// phase `(phase + i · freq) mod den`, and the generator leaves at the
    /// phase one step past a `tx + 1` sample grid — the deliberate one-step
    /// pre-advance into the next event.
    pub fn consume(&mut self, freq_mhz: u64, dur_ns: u64) -> (phases: Vec<u64>)
        requires
            old(self).wf(),
            spec_event_samples(old(self).carry as int, old(self).rate as int, dur_ns as int)
                <= usize::MAX,
        ensures
            final(self).wf(),
            final(self).rate == old(self).rate,
            phases@.len() == spec_event_samples(
                old(self).carry as int,
                old(self).rate as int,
                dur_ns as int,
            ),
            final(self).carry == spec_next_carry(
                old(self).carry as int,
                old(self).rate as int,
                dur_ns as int,
            ),
            // conservation: emitted samples plus the retained carry account
            // for the elapsed time exactly
            (CARRY_DEN as int) * phases@.len() + final(self).carry == old(self).carry + (old(
                self,
            ).rate as int) * (dur_ns as int),
            forall|i: int|
                0 <= i < phases@.len() ==> phases@[i] == spec_phase_at(
                    old(self).phase as int,
                    freq_mhz as int,
                    i,
                    old(self).spec_den(),
                ),
            final(self).phase == spec_next_phase(
                old(self).phase as int,
                freq_mhz as int,
                phases@.len() as int,
                old(self).spec_den(),
            ),
    {
        let phase0: u64 = self.phase;
        let rate64: u64 = self.rate as u64;
        let den: u64 = 1000 * rate64;
        proof {
            assert((rate64 as int) * (dur_ns as int) <= 0xffff_ffff * 0xffff_ffff_ffff_ffff)
                by (nonlinear_arith)
                requires
                    rate64 <= 0xffff_ffff,
                    dur_ns <= 0xffff_ffff_ffff_ffff,
            ;
        }
        let total: u128 = self.carry as u128 + (rate64 as u128) * (dur_ns as u128);
        let tx: usize = (total / (CARRY_DEN as u128)) as usize;
        self.carry = (total % (CARRY_DEN as u128)) as u64;
        let mut phases: Vec<u64> = Vec::new();
        let mut i: usize = 0;
        while i < tx
            invariant
                i <= tx,
                den == 1000 * rate64,
                rate64 >= 1,
                freq_mhz <= 0xffff_ffff_ffff_ffff,
                phase0 < den,
                phases@.len() == i,
                forall|j: int|
                    0 <= j < i ==> phases@[j] == spec_phase_at(
                        phase0 as int,
                        freq_mhz as int,
                        j,
                        den as int,
                    ),
            decreases tx - i,
        {
            proof {
                assert((i as int) * (freq_mhz as int) <= 0xffff_ffff_ffff_ffff
                    * 0xffff_ffff_ffff_ffff) by (nonlinear_arith)
                    requires
                        i <= 0xffff_ffff_ffff_ffff,
                        freq_mhz <= 0xffff_ffff_ffff_ffff,
                ;
            }
            let p: u64 = ((phase0 as u128 + (i as u128) * (freq_mhz as u128)) % (den as u128))
                as u64;
            phases.push(p);
            i = i + 1;
        }
        proof {
            assert(((tx as int) + 1) * (freq_mhz as int) <= (0xffff_ffff_ffff_ffff + 1)
                * 0xffff_ffff_ffff_ffff) by (nonlinear_arith)
                requires
                    tx <= 0xffff_ffff_ffff_ffff,
                    freq_mhz <= 0xffff_ffff_ffff_ffff,
            ;
        }
        self.phase = ((phase0 as u128 + (tx as u128 + 1) * (freq_mhz as u128)) % (den as u128))
            as u64;
        phases
    }
}

} // verus!
