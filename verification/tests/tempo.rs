use maestro::tempo::{Division, TempoClock};

const RATE: u32 = 48_000;

#[test]
fn a_quarter_note_at_120_bpm_is_half_a_second() {
    let mut clock = TempoClock::new(Division::Ppq(96), RATE);
    assert_eq!(clock.advance(96), 24_000);
}

#[test]
fn a_tempo_change_applies_from_where_it_lands() {
    let mut clock = TempoClock::new(Division::Ppq(96), RATE);
    assert_eq!(clock.advance(96), 24_000);

    clock.set_tempo(250_000);
    assert_eq!(clock.advance(96), 12_000);
}

#[test]
fn ticks_that_do_not_divide_evenly_do_not_drift() {
    let mut clock = TempoClock::new(Division::Ppq(480), RATE);
    let steps = 100_000u64;
    let total: u64 = (0..steps).map(|_| clock.advance(7)).sum();

    let mut reference = TempoClock::new(Division::Ppq(480), RATE);
    assert_eq!(total, reference.advance(steps * 7));
}

#[test]
fn smpte_timing_ignores_tempo() {
    let mut clock = TempoClock::new(
        Division::Smpte {
            fps: 25,
            subframes: 40,
        },
        RATE,
    );

    clock.set_tempo(250_000);
    assert_eq!(clock.advance(1000), 48_000);
}

#[test]
fn zero_ticks_yield_no_samples_and_keep_the_carry() {
    let mut clock = TempoClock::new(Division::Ppq(480), RATE);
    assert_eq!(clock.advance(7), 350);
    assert_eq!(clock.advance(0), 0);
    // 7 ticks at 480 ppq and 120 bpm are 350 samples exactly.
    assert_eq!(clock.advance(480), 24_000);
}

#[test]
fn a_zero_ppq_or_zero_tempo_is_treated_as_one() {
    let mut clock = TempoClock::new(Division::Ppq(0), 1_000);
    clock.set_tempo(0);
    // 1 tick per quarter at 500000 us per quarter is half a second.
    assert_eq!(clock.advance(1), 500);
    let mut smpte = TempoClock::new(Division::Smpte { fps: 0, subframes: 40 }, 1_000);
    assert_eq!(smpte.advance(3), 3_000);
}

#[test]
fn fractions_carry_to_the_next_step() {
    // 1 tick at 3 ticks per second and 1000 Hz: 333.33.. samples each.
    let mut clock = TempoClock::new(Division::Smpte { fps: 3, subframes: 1 }, 1_000);
    assert_eq!(clock.advance(1), 333);
    assert_eq!(clock.advance(1), 333);
    assert_eq!(clock.advance(1), 334);
}
