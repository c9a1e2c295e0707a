//! Converts MIDI ticks into audio samples.
//!
//! With pulses-per-quarter timing a tick lasts `tempo / ppq` microseconds and
//! the tempo can change mid-file; with SMPTE timing a tick lasts a fixed
//! `1 / (fps * subframes)` of a second and tempo events are ignored. The
//! fraction of a sample lost by each conversion is carried over to the next,
//! so converting in many small steps never drifts from converting at once.

use vstd::arithmetic::div_mod::*;
use vstd::arithmetic::mul::*;
use vstd::prelude::*;

verus! {

/// Default tempo, in microseconds per quarter note (120 bpm).
pub const DEFAULT_TEMPO: u32 = 500000;

/// Microseconds in a second.
pub const MICROS_PER_SECOND: u64 = 1000000;

/// The time division from a MIDI file header.
#[derive(Debug, Clone, Copy, PartialEq, Eq, Structural)]
pub enum Division {
    /// Ticks per quarter note.
    Ppq(u16),
    /// SMPTE frames per second and ticks per frame.
    Smpte { fps: u8, subframes: u8 },
}

#[derive(Debug, Clone)]
pub struct TempoClock {
    ticks_per_quarter: u64,
    micros_per_quarter: u64,
    sample_rate: u64,
    fixed_tick_rate: Option<u64>,
    remainder: u64,
}

/// Samples (times the denominator) that `ticks` ticks are worth.
pub open spec fn clock_numerator(c: TempoClock, ticks: nat) -> nat {
    match c.spec_fixed_tick_rate() {
        Some(_) => ticks * (c.spec_sample_rate() as nat),
        None => ticks * (c.spec_micros_per_quarter() as nat) * (c.spec_sample_rate() as nat),
    }
}

/// The denominator of the tick-to-sample ratio.
pub open spec fn clock_denominator(c: TempoClock) -> nat {
    match c.spec_fixed_tick_rate() {
        Some(rate) => rate as nat,
        None => (c.spec_ticks_per_quarter() as nat) * (MICROS_PER_SECOND as nat),
    }
}

/// The clock after advancing by `ticks`, and the whole samples it yields
/// (before any narrowing to `u64`): the ticks' worth plus the carried
/// fraction, divided by the denominator; the new fraction is what is left.
pub open spec fn advanced(c: TempoClock, ticks: nat) -> (TempoClock, nat) {
    let total: nat = clock_numerator(c, ticks) + (c.spec_remainder() as nat);
    let den = clock_denominator(c);
    (c.with_remainder((total % den) as u64), total / den)
}

impl TempoClock {
    /// Parameters stay within the widths they were read from, and the carried
    /// fraction is a proper fraction.
    pub closed spec fn wf(&self) -> bool {
        &&& 1 <= self.ticks_per_quarter <= u16::MAX
        &&& 1 <= self.micros_per_quarter <= u32::MAX
        &&& self.sample_rate <= u32::MAX
        &&& match self.fixed_tick_rate {
            Some(rate) => 1 <= rate <= 65025 && self.ticks_per_quarter == 1,
            None => true,
        }
        &&& self.remainder < clock_denominator(*self)
    }

    pub closed spec fn spec_micros_per_quarter(&self) -> u64 {
        self.micros_per_quarter
    }

    /// The fraction of a sample carried into the next step (times the
    /// denominator).
    pub closed spec fn spec_remainder(&self) -> u64 {
        self.remainder
    }

    pub closed spec fn spec_ticks_per_quarter(&self) -> u64 {
        self.ticks_per_quarter
    }

    pub closed spec fn spec_sample_rate(&self) -> u64 {
        self.sample_rate
    }

    /// `Some(ticks per second)` under SMPTE timing.
    pub closed spec fn spec_fixed_tick_rate(&self) -> Option<u64> {
        self.fixed_tick_rate
    }

    /// The clock with its tempo replaced.
    pub closed spec fn with_tempo(self, micros_per_quarter: u64) -> TempoClock {
        TempoClock { micros_per_quarter, ..self }
    }

    /// The clock with its carried fraction replaced.
    pub closed spec fn with_remainder(self, remainder: u64) -> TempoClock {
        TempoClock { remainder, ..self }
    }

    pub fn new(division: Division, sample_rate: u32) -> (c: TempoClock)
        ensures
            c.wf(),
            c.spec_remainder() == 0,
            c.spec_micros_per_quarter() == DEFAULT_TEMPO,
            c.spec_sample_rate() == sample_rate,
            match division {
                Division::Ppq(ppq) => c.spec_fixed_tick_rate() is None
                    && c.spec_ticks_per_quarter() == if ppq == 0 {
                    1
                } else {
                    ppq as u64
                },
                Division::Smpte { fps, subframes } => c.spec_ticks_per_quarter() == 1
                    && c.spec_fixed_tick_rate() == Some(
                    if fps * subframes == 0 {
                        1u64
                    } else {
                        (fps * subframes) as u64
                    },
                ),
            },
    {
        let (ticks_per_quarter, fixed_tick_rate) = match division {
            Division::Ppq(ppq) => {
                let p = ppq as u64;
                (if p > 1 { p } else { 1 }, None)
            },
            Division::Smpte { fps, subframes } => {
                assert(fps * subframes <= 255 * 255) by (nonlinear_arith)
                    requires
                        fps <= 255,
                        subframes <= 255,
                ;
                let rate = (fps as u64) * (subframes as u64);
                (1, Some(if rate > 1 { rate } else { 1 }))
            },
        };
        TempoClock {
            ticks_per_quarter,
            micros_per_quarter: DEFAULT_TEMPO as u64,
            sample_rate: sample_rate as u64,
            fixed_tick_rate,
            remainder: 0,
        }
    }

    /// A tempo event. Ignored under SMPTE timing, and a zero tempo is ignored.
    pub fn set_tempo(&mut self, micros_per_quarter: u32)
        requires
            old(self).wf(),
        ensures
            final(self).wf(),
            *final(self) == if old(self).spec_fixed_tick_rate() is None && micros_per_quarter > 0 {
                old(self).with_tempo(micros_per_quarter as u64)
            } else {
                *old(self)
            },
    {
        if self.fixed_tick_rate.is_none() && micros_per_quarter > 0 {
            self.micros_per_quarter = micros_per_quarter as u64;
        }
    }

    /// The tick-to-sample ratio for `ticks` ticks, as numerator and
    /// denominator.
    fn ratio(&self, ticks: u64) -> (r: (u128, u128))
        requires
            self.wf(),
        ensures
            r.0 == clock_numerator(*self, ticks as nat),
            r.1 == clock_denominator(*self),
            r.0 <= (u64::MAX as nat) * (u32::MAX as nat) * (u32::MAX as nat),
            1 <= r.1 < 0x1_0000_0000_0000,
    {
        match self.fixed_tick_rate {
            Some(rate) => {
                assert((ticks as nat) * (self.sample_rate as nat) <= (u64::MAX as nat) * (
                u32::MAX as nat)) by (nonlinear_arith)
                    requires
                        ticks <= u64::MAX,
                        self.sample_rate <= u32::MAX,
                ;
                assert((u64::MAX as nat) * (u32::MAX as nat) <= (u64::MAX as nat) * (
                u32::MAX as nat) * (u32::MAX as nat)) by (nonlinear_arith);
                ((ticks as u128) * (self.sample_rate as u128), rate as u128)
            },
            None => {
                let t = ticks as u128;
                let m = self.micros_per_quarter as u128;
                let s = self.sample_rate as u128;
                assert(t * m <= (u64::MAX as nat) * (u32::MAX as nat)) by (nonlinear_arith)
                    requires
                        t <= u64::MAX,
                        m <= u32::MAX,
                ;
                assert(t * m * s <= (u64::MAX as nat) * (u32::MAX as nat) * (u32::MAX as nat))
                    by (nonlinear_arith)
                    requires
                        t * m <= (u64::MAX as nat) * (u32::MAX as nat),
                        s <= u32::MAX,
                ;
                assert((u64::MAX as nat) * (u32::MAX as nat) * (u32::MAX as nat) <= u128::MAX)
                    by (nonlinear_arith);
                let tm = t * m;
                (tm * s, (self.ticks_per_quarter as u128) * 1000000)
            },
        }
    }

    /// Advances by `ticks` and returns how many whole samples they span,
    /// carrying the leftover fraction of a sample into the next call.
    pub fn advance(&mut self, ticks: u64) -> (samples: u64)
        requires
            old(self).wf(),
        ensures
            final(self).wf(),
            *final(self) == advanced(*old(self), ticks as nat).0,
            samples == advanced(*old(self), ticks as nat).1 as u64,
    {
        if ticks == 0 {
            proof {
                let c = *old(self);
                assert(clock_numerator(c, 0) == 0) by {
                    lemma_mul_basics(c.sample_rate as int);
                    lemma_mul_basics(c.micros_per_quarter as int);
                }
                lemma_small_mod(c.remainder as nat, clock_denominator(c));
                lemma_basic_div(c.remainder as int, clock_denominator(c) as int);
            }
            return 0;
        }
        let (numerator, denominator) = self.ratio(ticks);
        assert((u64::MAX as nat) * (u32::MAX as nat) * (u32::MAX as nat) + 0x1_0000_0000_0000
            <= u128::MAX) by (nonlinear_arith);
        let total = numerator + (self.remainder as u128);
        proof {
            lemma_mod_bound(total as int, denominator as int);
        }
        self.remainder = (total % denominator) as u64;
        (total / denominator) as u64
    }
}

/// Stepping never drifts: advancing by `a` ticks and then by `b` ticks lands
/// in the same state, and yields the same number of whole samples in total,
/// as advancing by `a + b` ticks at once (the tempo being the same).
pub proof fn law_advance_is_additive(c: TempoClock, a: nat, b: nat)
    requires
        c.wf(),
    ensures
        advanced(advanced(c, a).0, b).0 == advanced(c, a + b).0,
        advanced(c, a).1 + advanced(advanced(c, a).0, b).1 == advanced(c, a + b).1,
{
    let d = clock_denominator(c) as int;
    let c1 = advanced(c, a).0;
    let na = clock_numerator(c, a) as int;
    let nb = clock_numerator(c, b) as int;
    assert(clock_numerator(c, a + b) == na + nb) by {
        match c.fixed_tick_rate {
            Some(_) => {
                lemma_mul_is_distributive_add_other_way(c.sample_rate as int, a as int, b as int);
            },
            None => {
                lemma_mul_is_distributive_add_other_way(
                    c.micros_per_quarter as int,
                    a as int,
                    b as int,
                );
                lemma_mul_is_distributive_add_other_way(
                    c.sample_rate as int,
                    (a * c.micros_per_quarter) as int,
                    (b * c.micros_per_quarter) as int,
                );
            },
        }
    }
    assert(clock_denominator(c1) == clock_denominator(c));
    assert(clock_numerator(c1, b) == clock_numerator(c, b));
    let r = c.remainder as int;
    let t1 = na + r;
    let q1 = t1 / d;
    let r1 = t1 % d;
    lemma_fundamental_div_mod(t1, d);
    lemma_mod_bound(t1, d);
    assert(c1.remainder as int == r1);
    let t2 = nb + r1;
    let q2 = t2 / d;
    let r2 = t2 % d;
    lemma_fundamental_div_mod(t2, d);
    lemma_mod_bound(t2, d);
    let t = na + nb + r;
    assert(t == d * (q1 + q2) + r2) by {
        lemma_mul_is_distributive_add(d, q1, q2);
    }
    lemma_fundamental_div_mod_converse(t, d, q1 + q2, r2);
}

/// What `with_tempo` and `with_remainder` change, and what they keep.
pub proof fn lemma_clock_updates(c: TempoClock, micros_per_quarter: u64, remainder: u64)
    ensures
        c.with_tempo(micros_per_quarter).spec_micros_per_quarter() == micros_per_quarter,
        c.with_tempo(micros_per_quarter).spec_remainder() == c.spec_remainder(),
        c.with_tempo(micros_per_quarter).spec_ticks_per_quarter() == c.spec_ticks_per_quarter(),
        c.with_tempo(micros_per_quarter).spec_sample_rate() == c.spec_sample_rate(),
        c.with_tempo(micros_per_quarter).spec_fixed_tick_rate() == c.spec_fixed_tick_rate(),
        c.with_remainder(remainder).spec_remainder() == remainder,
        c.with_remainder(remainder).spec_micros_per_quarter() == c.spec_micros_per_quarter(),
        c.with_remainder(remainder).spec_ticks_per_quarter() == c.spec_ticks_per_quarter(),
        c.with_remainder(remainder).spec_sample_rate() == c.spec_sample_rate(),
        c.with_remainder(remainder).spec_fixed_tick_rate() == c.spec_fixed_tick_rate(),
{
}

/// Advancing a well-formed clock leaves it well formed.
pub proof fn lemma_advanced_wf(c: TempoClock, ticks: nat)
    requires
        c.wf(),
    ensures
        advanced(c, ticks).0.wf(),
{
    let den = clock_denominator(c);
    let total: nat = clock_numerator(c, ticks) + (c.remainder as nat);
    match c.fixed_tick_rate {
        Some(_) => {},
        None => {
            assert(den < 0x1_0000_0000_0000) by (nonlinear_arith)
                requires
                    den == (c.ticks_per_quarter as nat) * 1000000,
                    1 <= c.ticks_per_quarter <= u16::MAX,
            ;
        },
    }
    lemma_mod_bound(total as int, den as int);
}

/// The ticks of a run of steps, added up.
pub open spec fn total_ticks(steps: Seq<nat>) -> nat
    decreases steps.len(),
{
    if steps.len() == 0 {
        0
    } else {
        steps[0] + total_ticks(steps.drop_first())
    }
}

/// The clock after advancing through `steps` one after another (no tempo
/// change between them), and the whole samples yielded in total.
pub open spec fn advanced_steps(c: TempoClock, steps: Seq<nat>) -> (TempoClock, nat)
    decreases steps.len(),
{
    if steps.len() == 0 {
        (c, 0)
    } else {
        let first = advanced(c, steps[0]);
        let rest = advanced_steps(first.0, steps.drop_first());
        (rest.0, first.1 + rest.1)
    }
}

/// Stepping never drifts, however many steps: advancing through any run of
/// tick counts yields the same samples in total, and leaves the same state,
/// as advancing by their sum at once (the tempo being the same).
pub proof fn law_steps_never_drift(c: TempoClock, steps: Seq<nat>)
    requires
        c.wf(),
    ensures
        advanced_steps(c, steps) == advanced(c, total_ticks(steps)),
    decreases steps.len(),
{
    if steps.len() == 0 {
        lemma_advanced_zero(c);
    } else {
        let first = advanced(c, steps[0]);
        lemma_advanced_wf(c, steps[0]);
        law_steps_never_drift(first.0, steps.drop_first());
        law_advance_is_additive(c, steps[0], total_ticks(steps.drop_first()));
    }
}

/// Advancing by no ticks changes nothing and yields nothing.
pub proof fn lemma_advanced_zero(c: TempoClock)
    requires
        c.wf(),
    ensures
        advanced(c, 0) == (c, 0nat),
{
    assert(clock_numerator(c, 0) == 0) by {
        lemma_mul_basics(c.sample_rate as int);
        lemma_mul_basics(c.micros_per_quarter as int);
    }
    lemma_small_mod(c.remainder as nat, clock_denominator(c));
    lemma_basic_div(c.remainder as int, clock_denominator(c) as int);
    assert(c.with_remainder(c.remainder) == c);
}

} // verus!
