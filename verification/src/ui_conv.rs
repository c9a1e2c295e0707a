//! Conversions between stored settings and the flat values the settings
//! editor binds to: tab keys, combo-box indices, per-slot flags and clamped
//! integers. Each pair round-trips on the values the editor can produce.

use crate::engine_cfg::{
    f32_is_nan, same_event_processor,
    bass_interpolation_from, bass_interpolation_ok, fluid_interpolation_from, fluid_interpolation_ok,
    BassMidiConfig, BassMidiThreading, FluidSynthConfig, SynthConfig, BASS_INTERPOLATION_DEFAULT,
    FLUID_INTERPOLATION_DEFAULT,
};
use crate::component::{ConverterCustom, ConverterView};
use crate::engine_cfg::{
    AudioLimiterConfig, AudioParameters, ChannelCount, EventProcessorConfig, PostProcessorConfig,
    RealtimeConfig,
};
use crate::app_state::{id_at, id_index, AudioDeviceCache};
use crate::system_cfg::SystemCustomSettings;
use crate::output::{bitrate_at, bitrates, OutputFormat, WavBitDepth, BITRATE_COUNT, DEFAULT_BITRATE_KBPS};
use vstd::multiset::Multiset;
use vstd::prelude::*;

verus! {

/// A page of the main window.
#[derive(Debug, Clone, Copy, PartialEq, Eq, Structural)]
pub enum Tab {
    Welcome,
    Soundfonts,
    Converter,
    Device,
    System,
}

/// The key a tab is remembered under.
pub open spec fn tab_key(tab: Tab) -> Seq<char> {
    match tab {
        Tab::Welcome => "welcome"@,
        Tab::Soundfonts => "soundfonts"@,
        Tab::Converter => "converter"@,
        Tab::Device => "device"@,
        Tab::System => "system"@,
    }
}

/// The tab a remembered key names.
pub open spec fn tab_for_key(key: Seq<char>) -> Option<Tab> {
    if key == "welcome"@ {
        Some(Tab::Welcome)
    } else if key == "soundfonts"@ {
        Some(Tab::Soundfonts)
    } else if key == "converter"@ {
        Some(Tab::Converter)
    } else if key == "device"@ {
        Some(Tab::Device)
    } else if key == "system"@ {
        Some(Tab::System)
    } else {
        None
    }
}

pub fn tab_to_key(tab: Tab) -> (s: &'static str)
    ensures
        s@ == tab_key(tab),
{
    match tab {
        Tab::Welcome => "welcome",
        Tab::Soundfonts => "soundfonts",
        Tab::Converter => "converter",
        Tab::Device => "device",
        Tab::System => "system",
    }
}

pub fn tab_from_key(key: &str) -> (t: Option<Tab>)
    ensures
        t == tab_for_key(key@),
{
    if crate::text::str_eq(key, "welcome") {
        Some(Tab::Welcome)
    } else if crate::text::str_eq(key, "soundfonts") {
        Some(Tab::Soundfonts)
    } else if crate::text::str_eq(key, "converter") {
        Some(Tab::Converter)
    } else if crate::text::str_eq(key, "device") {
        Some(Tab::Device)
    } else if crate::text::str_eq(key, "system") {
        Some(Tab::System)
    } else {
        None
    }
}

/// A remembered tab reads back as itself, and a key that reads as a tab is
/// that tab's key.
pub proof fn law_tab_key_roundtrip(tab: Tab, key: Seq<char>)
    ensures
        tab_for_key(tab_key(tab)) == Some(tab),
        tab_for_key(key) == Some(tab) ==> key == tab_key(tab),
{
    reveal_strlit("welcome");
    reveal_strlit("soundfonts");
    reveal_strlit("converter");
    reveal_strlit("device");
    reveal_strlit("system");
    assert("soundfonts"@[0] != "welcome"@[0]);
    assert("converter"@[0] != "welcome"@[0]);
    assert("converter"@[0] != "soundfonts"@[0]);
    assert("device"@[0] != "welcome"@[0]);
    assert("device"@[0] != "soundfonts"@[0]);
    assert("device"@[0] != "converter"@[0]);
    assert("system"@[0] != "welcome"@[0]);
    assert("system"@[1] != "soundfonts"@[1]);
    assert("system"@[0] != "converter"@[0]);
    assert("system"@[0] != "device"@[0]);
}

/// The combo-box index of each output format.
pub open spec fn format_index(f: OutputFormat) -> i32 {
    match f {
        OutputFormat::Wav => 0,
        OutputFormat::Flac => 1,
        OutputFormat::Mp3 => 2,
        OutputFormat::Ogg => 3,
    }
}

/// The output format at a combo-box index; anything unknown is WAV.
pub open spec fn format_at(idx: i32) -> OutputFormat {
    if idx == 1 {
        OutputFormat::Flac
    } else if idx == 2 {
        OutputFormat::Mp3
    } else if idx == 3 {
        OutputFormat::Ogg
    } else {
        OutputFormat::Wav
    }
}

pub fn output_format_to_index(fmt: OutputFormat) -> (i: i32)
    ensures
        i == format_index(fmt),
{
    match fmt {
        OutputFormat::Wav => 0,
        OutputFormat::Flac => 1,
        OutputFormat::Mp3 => 2,
        OutputFormat::Ogg => 3,
    }
}

pub fn output_format_from_index(idx: i32) -> (f: OutputFormat)
    ensures
        f == format_at(idx),
{
    match idx {
        1 => OutputFormat::Flac,
        2 => OutputFormat::Mp3,
        3 => OutputFormat::Ogg,
        _ => OutputFormat::Wav,
    }
}

/// The combo-box index of each WAV sample format.
pub open spec fn depth_index(d: WavBitDepth) -> i32 {
    match d {
        WavBitDepth::Float32 => 0,
        WavBitDepth::Int24 => 1,
        WavBitDepth::Int16 => 2,
    }
}

/// The sample format at a combo-box index; anything unknown is 32-bit float.
pub open spec fn depth_at(idx: i32) -> WavBitDepth {
    if idx == 1 {
        WavBitDepth::Int24
    } else if idx == 2 {
        WavBitDepth::Int16
    } else {
        WavBitDepth::Float32
    }
}

pub fn wav_bit_depth_to_index(depth: WavBitDepth) -> (i: i32)
    ensures
        i == depth_index(depth),
{
    match depth {
        WavBitDepth::Float32 => 0,
        WavBitDepth::Int24 => 1,
        WavBitDepth::Int16 => 2,
    }
}

pub fn wav_bit_depth_from_index(idx: i32) -> (d: WavBitDepth)
    ensures
        d == depth_at(idx),
{
    match idx {
        1 => WavBitDepth::Int24,
        2 => WavBitDepth::Int16,
        _ => WavBitDepth::Float32,
    }
}

/// Format and sample-format indices round-trip: a value reads back from its
/// index, and an index the combo box offers reads back from its value.
pub proof fn law_format_index_roundtrip(f: OutputFormat, d: WavBitDepth, idx: i32)
    ensures
        format_at(format_index(f)) == f,
        depth_at(depth_index(d)) == d,
        0 <= idx <= 3 ==> format_index(format_at(idx)) == idx,
        0 <= idx <= 2 ==> depth_index(depth_at(idx)) == idx,
{
}

/// The distance between two bitrates.
pub open spec fn rate_distance(a: u32, b: u32) -> int {
    if a >= b {
        a - b
    } else {
        b - a
    }
}

/// The bitrate entry closest to `kbps`: no entry is closer, and every entry
/// before it is farther (ties go to the lower entry).
pub open spec fn nearest_bitrate(kbps: u32, i: int) -> bool {
    &&& 0 <= i < bitrates().len()
    &&& forall|j: int|
        0 <= j < bitrates().len() ==> rate_distance(bitrates()[i], kbps) <= rate_distance(
            bitrates()[j],
            kbps,
        )
    &&& forall|j: int|
        0 <= j < i ==> rate_distance(bitrates()[i], kbps) < rate_distance(bitrates()[j], kbps)
}

fn abs_diff(a: u32, b: u32) -> (d: u32)
    ensures
        d == rate_distance(a, b),
{
    if a >= b {
        a - b
    } else {
        b - a
    }
}

/// The combo-box index of the selectable bitrate closest to `kbps`.
pub fn bitrate_to_index(kbps: u32) -> (i: i32)
    ensures
        nearest_bitrate(kbps, i as int),
{
    let mut best: usize = 0;
    let mut best_d = abs_diff(bitrate_at(0), kbps);
    let mut i: usize = 1;
    while i < BITRATE_COUNT
        invariant
            1 <= i <= BITRATE_COUNT,
            best < i,
            best_d == rate_distance(bitrates()[best as int], kbps),
            forall|j: int| 0 <= j < i ==> best_d <= rate_distance(bitrates()[j], kbps),
            forall|j: int| 0 <= j < best ==> best_d < rate_distance(bitrates()[j], kbps),
        decreases BITRATE_COUNT - i,
    {
        let d = abs_diff(bitrate_at(i), kbps);
        if d < best_d {
            best = i;
            best_d = d;
        }
        i = i + 1;
    }
    best as i32
}

/// The bitrate at a combo-box index; an index outside the table gives the
/// default bitrate.
pub open spec fn bitrate_for_index(idx: i32) -> u32 {
    if 0 <= idx < bitrates().len() {
        bitrates()[idx as int]
    } else {
        DEFAULT_BITRATE_KBPS
    }
}

pub fn bitrate_from_index(idx: i32) -> (kbps: u32)
    ensures
        kbps == bitrate_for_index(idx),
{
    if 0 <= idx && (idx as usize) < BITRATE_COUNT {
        bitrate_at(idx as usize)
    } else {
        DEFAULT_BITRATE_KBPS
    }
}

/// A selectable bitrate reads back from its index, and a bitrate index reads
/// back from its bitrate.
pub proof fn law_bitrate_index_roundtrip(kbps: u32, i: int, idx: i32)
    ensures
        bitrates().contains(kbps) && nearest_bitrate(kbps, i) ==> bitrates()[i] == kbps,
        0 <= idx < bitrates().len() && nearest_bitrate(bitrate_for_index(idx), i) ==> i == idx,
{
    if bitrates().contains(kbps) && nearest_bitrate(kbps, i) {
        let k = bitrates().index_of(kbps);
        assert(rate_distance(bitrates()[k], kbps) == 0);
    }
    if 0 <= idx < bitrates().len() && nearest_bitrate(bitrate_for_index(idx), i) {
        let r = bitrates()[idx as int];
        assert(rate_distance(bitrates()[idx as int], r) == 0);
        assert(rate_distance(bitrates()[i], r) == 0);
        assert(bitrates()[i] == r);
        assert(i == idx) by {
            assert(bitrates()[0] < bitrates()[1] < bitrates()[2] < bitrates()[3] < bitrates()[4]
                < bitrates()[5] < bitrates()[6] < bitrates()[7]);
        }
    }
}

/// Which synthesizer the editor shows.
#[derive(Debug, Clone, Copy, PartialEq, Eq, Structural)]
pub enum SynthKind {
    Fluidsynth,
    Bassmidi,
}

/// The synthesizer settings as the editor holds them: both synthesizers'
/// fields at once, integers as the editor's `int`, floating-point values as
/// bit patterns (the overflow weights as the `f64` patterns the settings
/// store; the editor's own `f32` fields are filled from them where it is
/// built).
#[derive(Debug, Clone, Copy, PartialEq, Eq, Structural)]
pub struct SlintSynthConfig {
    pub kind: SynthKind,
    pub fluid_voice_limit: i32,
    pub fluid_interpolation: i32,
    pub fluid_min_note_length: i32,
    pub fluid_system_id: i32,
    pub fluid_chorus: bool,
    pub fluid_reverb: bool,
    pub fluid_overflow_age_bits: u64,
    pub fluid_overflow_percussion_bits: u64,
    pub fluid_overflow_released_bits: u64,
    pub fluid_overflow_sustained_bits: u64,
    pub fluid_overflow_volume_bits: u64,
    pub bass_voice_limit: i32,
    pub bass_render_time_limit_bits: u32,
    pub bass_interpolation: i32,
    pub bass_multithreading: bool,
    pub bass_thread_count: i32,
    pub bass_keyboard_divisions: i32,
    pub bass_disable_effects: bool,
    pub bass_fade_out_killing: bool,
    pub bass_follow_overlaps: bool,
    pub bass_sf_linear_attack_mod: bool,
    pub bass_sf_linear_decay_vol: bool,
    pub bass_sf_minfx: bool,
    pub bass_sf_nofx: bool,
    pub bass_sf_no_rampin: bool,
    pub bass_sf_sb_limits: bool,
    pub bass_sf_xg_drums: bool,
}

/// A synthesizer configuration whose interpolation codes name real modes.
pub open spec fn synth_wf(synth: SynthConfig) -> bool {
    match synth {
        SynthConfig::FluidSynth(c) => fluid_interpolation_ok(c.interpolation),
        SynthConfig::BassMidi(c) => bass_interpolation_ok(c.interpolation),
    }
}

/// The editor's view of FluidSynth settings.
pub open spec fn with_fluid(out: SlintSynthConfig, c: FluidSynthConfig) -> SlintSynthConfig {
    SlintSynthConfig {
        fluid_voice_limit: c.voice_limit as i32,
        fluid_interpolation: c.interpolation,
        fluid_min_note_length: c.minimum_note_length as i32,
        fluid_system_id: c.system_id,
        fluid_chorus: c.chorus_active,
        fluid_reverb: c.reverb_active,
        fluid_overflow_age_bits: c.overflow_age_bits,
        fluid_overflow_percussion_bits: c.overflow_percussion_bits,
        fluid_overflow_released_bits: c.overflow_released_bits,
        fluid_overflow_sustained_bits: c.overflow_sustained_bits,
        fluid_overflow_volume_bits: c.overflow_volume_bits,
        ..out
    }
}

/// The editor's view of BASSMIDI settings. The interpolation index is the
/// code plus one; the thread fields keep what `out` had when threading is
/// off.
pub open spec fn with_bass(out: SlintSynthConfig, c: BassMidiConfig) -> SlintSynthConfig {
    SlintSynthConfig {
        bass_voice_limit: c.voice_limit as i32,
        bass_render_time_limit_bits: c.render_time_limit_bits,
        bass_interpolation: (c.interpolation + 1) as i32,
        bass_multithreading: c.multithreading is Some,
        bass_thread_count: match c.multithreading {
            Some(mt) => match mt.thread_count {
                Some(n) => n as i32,
                None => 0,
            },
            None => out.bass_thread_count,
        },
        bass_keyboard_divisions: match c.multithreading {
            Some(mt) => mt.keyboard_divisions as i32,
            None => out.bass_keyboard_divisions,
        },
        bass_disable_effects: c.disable_effects,
        bass_fade_out_killing: c.fade_out_killing,
        bass_follow_overlaps: c.follow_overlaps,
        bass_sf_linear_attack_mod: c.sf_linear_attack_mod,
        bass_sf_linear_decay_vol: c.sf_linear_decay_vol,
        bass_sf_minfx: c.sf_minfx,
        bass_sf_nofx: c.sf_nofx,
        bass_sf_no_rampin: c.sf_no_rampin,
        bass_sf_sb_limits: c.sf_sb_limits,
        bass_sf_xg_drums: c.sf_xg_drums,
        ..out
    }
}

/// What the editor shows before any configuration is loaded: both
/// synthesizers at their defaults, BASSMIDI selected, one keyboard division
/// and automatic threads.
pub open spec fn slint_synth_defaults() -> SlintSynthConfig {
    let base = SlintSynthConfig {
        kind: SynthKind::Bassmidi,
        fluid_voice_limit: 0,
        fluid_interpolation: 0,
        fluid_min_note_length: 0,
        fluid_system_id: 0,
        fluid_chorus: false,
        fluid_reverb: false,
        fluid_overflow_age_bits: 0,
        fluid_overflow_percussion_bits: 0,
        fluid_overflow_released_bits: 0,
        fluid_overflow_sustained_bits: 0,
        fluid_overflow_volume_bits: 0,
        bass_voice_limit: 0,
        bass_render_time_limit_bits: 0,
        bass_interpolation: 0,
        bass_multithreading: false,
        bass_thread_count: 0,
        bass_keyboard_divisions: 1,
        bass_disable_effects: false,
        bass_fade_out_killing: false,
        bass_follow_overlaps: false,
        bass_sf_linear_attack_mod: false,
        bass_sf_linear_decay_vol: false,
        bass_sf_minfx: false,
        bass_sf_nofx: false,
        bass_sf_no_rampin: false,
        bass_sf_sb_limits: false,
        bass_sf_xg_drums: false,
    };
    with_bass(with_fluid(base, FluidSynthConfig::spec_default()), BassMidiConfig::spec_default())
}

/// The editor's values for a synthesizer configuration: the other
/// synthesizer's fields keep their defaults.
pub open spec fn spec_synth_to_slint(synth: SynthConfig) -> SlintSynthConfig {
    match synth {
        SynthConfig::FluidSynth(c) => SlintSynthConfig {
            kind: SynthKind::Fluidsynth,
            ..with_fluid(slint_synth_defaults(), c)
        },
        SynthConfig::BassMidi(c) => SlintSynthConfig {
            kind: SynthKind::Bassmidi,
            ..with_bass(slint_synth_defaults(), c)
        },
    }
}

fn defaults_slint_synth() -> (out: SlintSynthConfig)
    ensures
        out == slint_synth_defaults(),
{
    let f = FluidSynthConfig::default();
    let b = BassMidiConfig::default();
    SlintSynthConfig {
        kind: SynthKind::Bassmidi,
        fluid_voice_limit: f.voice_limit as i32,
        fluid_interpolation: f.interpolation,
        fluid_min_note_length: f.minimum_note_length as i32,
        fluid_system_id: f.system_id,
        fluid_chorus: f.chorus_active,
        fluid_reverb: f.reverb_active,
        fluid_overflow_age_bits: f.overflow_age_bits,
        fluid_overflow_percussion_bits: f.overflow_percussion_bits,
        fluid_overflow_released_bits: f.overflow_released_bits,
        fluid_overflow_sustained_bits: f.overflow_sustained_bits,
        fluid_overflow_volume_bits: f.overflow_volume_bits,
        bass_voice_limit: b.voice_limit as i32,
        bass_render_time_limit_bits: b.render_time_limit_bits,
        bass_interpolation: b.interpolation + 1,
        bass_multithreading: b.multithreading.is_some(),
        bass_thread_count: 0,
        bass_keyboard_divisions: 1,
        bass_disable_effects: b.disable_effects,
        bass_fade_out_killing: b.fade_out_killing,
        bass_follow_overlaps: b.follow_overlaps,
        bass_sf_linear_attack_mod: b.sf_linear_attack_mod,
        bass_sf_linear_decay_vol: b.sf_linear_decay_vol,
        bass_sf_minfx: b.sf_minfx,
        bass_sf_nofx: b.sf_nofx,
        bass_sf_no_rampin: b.sf_no_rampin,
        bass_sf_sb_limits: b.sf_sb_limits,
        bass_sf_xg_drums: b.sf_xg_drums,
    }
}

pub fn synth_to_slint(synth: &SynthConfig) -> (out: SlintSynthConfig)
    requires
        synth_wf(*synth),
    ensures
        out == spec_synth_to_slint(*synth),
{
    let mut out = defaults_slint_synth();
    match synth {
        SynthConfig::FluidSynth(c) => {
            out.kind = SynthKind::Fluidsynth;
            out.fluid_voice_limit = c.voice_limit as i32;
            out.fluid_interpolation = c.interpolation;
            out.fluid_min_note_length = c.minimum_note_length as i32;
            out.fluid_system_id = c.system_id;
            out.fluid_chorus = c.chorus_active;
            out.fluid_reverb = c.reverb_active;
            out.fluid_overflow_age_bits = c.overflow_age_bits;
            out.fluid_overflow_percussion_bits = c.overflow_percussion_bits;
            out.fluid_overflow_released_bits = c.overflow_released_bits;
            out.fluid_overflow_sustained_bits = c.overflow_sustained_bits;
            out.fluid_overflow_volume_bits = c.overflow_volume_bits;
        },
        SynthConfig::BassMidi(c) => {
            out.kind = SynthKind::Bassmidi;
            out.bass_voice_limit = c.voice_limit as i32;
            out.bass_render_time_limit_bits = c.render_time_limit_bits;
            out.bass_interpolation = c.interpolation + 1;
            out.bass_multithreading = c.multithreading.is_some();
            match &c.multithreading {
                Some(mt) => {
                    out.bass_thread_count = match mt.thread_count {
                        Some(n) => n as i32,
                        None => 0,
                    };
                    out.bass_keyboard_divisions = mt.keyboard_divisions as i32;
                },
                None => {},
            }
            out.bass_disable_effects = c.disable_effects;
            out.bass_fade_out_killing = c.fade_out_killing;
            out.bass_follow_overlaps = c.follow_overlaps;
            out.bass_sf_linear_attack_mod = c.sf_linear_attack_mod;
            out.bass_sf_linear_decay_vol = c.sf_linear_decay_vol;
            out.bass_sf_minfx = c.sf_minfx;
            out.bass_sf_nofx = c.sf_nofx;
            out.bass_sf_no_rampin = c.sf_no_rampin;
            out.bass_sf_sb_limits = c.sf_sb_limits;
            out.bass_sf_xg_drums = c.sf_xg_drums;
        },
    }
    out
}

/// The larger of `v` and `lo`.
pub open spec fn at_least(v: i32, lo: i32) -> i32 {
    if v < lo {
        lo
    } else {
        v
    }
}

/// `v` pinned into `lo..=hi`.
pub open spec fn pinned(v: i32, lo: i32, hi: i32) -> i32 {
    if v < lo {
        lo
    } else if v > hi {
        hi
    } else {
        v
    }
}

fn clamp_i32(v: i32, lo: i32, hi: i32) -> (r: i32)
    requires
        lo <= hi,
    ensures
        r == pinned(v, lo, hi),
{
    if v < lo {
        lo
    } else if v > hi {
        hi
    } else {
        v
    }
}

fn max_i32(v: i32, lo: i32) -> (r: i32)
    ensures
        r == at_least(v, lo),
{
    if v < lo {
        lo
    } else {
        v
    }
}

/// The synthesizer configuration the editor's values stand for: the selected
/// synthesizer's fields, voice limits of at least one, note lengths of at
/// least zero, unknown interpolation indices as the default mode, a
/// non-positive thread count as automatic, keyboard divisions pinned to
/// 1..255.
pub open spec fn spec_slint_to_synth(sl: SlintSynthConfig) -> SynthConfig {
    match sl.kind {
        SynthKind::Fluidsynth => SynthConfig::FluidSynth(
            FluidSynthConfig {
                voice_limit: at_least(sl.fluid_voice_limit, 1) as u32,
                interpolation: if fluid_interpolation_ok(sl.fluid_interpolation) {
                    sl.fluid_interpolation
                } else {
                    FLUID_INTERPOLATION_DEFAULT
                },
                minimum_note_length: at_least(sl.fluid_min_note_length, 0) as u32,
                system_id: sl.fluid_system_id,
                chorus_active: sl.fluid_chorus,
                reverb_active: sl.fluid_reverb,
                overflow_age_bits: sl.fluid_overflow_age_bits,
                overflow_percussion_bits: sl.fluid_overflow_percussion_bits,
                overflow_released_bits: sl.fluid_overflow_released_bits,
                overflow_sustained_bits: sl.fluid_overflow_sustained_bits,
                overflow_volume_bits: sl.fluid_overflow_volume_bits,
            },
        ),
        SynthKind::Bassmidi => SynthConfig::BassMidi(
            BassMidiConfig {
                voice_limit: at_least(sl.bass_voice_limit, 1) as u32,
                render_time_limit_bits: sl.bass_render_time_limit_bits,
                interpolation: if bass_interpolation_ok((sl.bass_interpolation - 1) as i32) {
                    (sl.bass_interpolation - 1) as i32
                } else {
                    BASS_INTERPOLATION_DEFAULT
                },
                multithreading: if sl.bass_multithreading {
                    Some(
                        BassMidiThreading {
                            thread_count: if sl.bass_thread_count > 0 {
                                Some(sl.bass_thread_count as usize)
                            } else {
                                None
                            },
                            keyboard_divisions: pinned(sl.bass_keyboard_divisions, 1, 255) as u8,
                        },
                    )
                } else {
                    None
                },
                disable_effects: sl.bass_disable_effects,
                fade_out_killing: sl.bass_fade_out_killing,
                follow_overlaps: sl.bass_follow_overlaps,
                sf_linear_attack_mod: sl.bass_sf_linear_attack_mod,
                sf_linear_decay_vol: sl.bass_sf_linear_decay_vol,
                sf_minfx: sl.bass_sf_minfx,
                sf_nofx: sl.bass_sf_nofx,
                sf_no_rampin: sl.bass_sf_no_rampin,
                sf_sb_limits: sl.bass_sf_sb_limits,
                sf_xg_drums: sl.bass_sf_xg_drums,
            },
        ),
    }
}

pub fn slint_to_synth(sl: &SlintSynthConfig) -> (synth: SynthConfig)
    requires
        sl.kind == SynthKind::Bassmidi ==> sl.bass_interpolation > i32::MIN,
    ensures
        synth == spec_slint_to_synth(*sl),
        synth_wf(synth),
{
    match sl.kind {
        SynthKind::Fluidsynth => SynthConfig::FluidSynth(
            FluidSynthConfig {
                voice_limit: max_i32(sl.fluid_voice_limit, 1) as u32,
                interpolation: fluid_interpolation_from(sl.fluid_interpolation),
                minimum_note_length: max_i32(sl.fluid_min_note_length, 0) as u32,
                system_id: sl.fluid_system_id,
                chorus_active: sl.fluid_chorus,
                reverb_active: sl.fluid_reverb,
                overflow_age_bits: sl.fluid_overflow_age_bits,
                overflow_percussion_bits: sl.fluid_overflow_percussion_bits,
                overflow_released_bits: sl.fluid_overflow_released_bits,
                overflow_sustained_bits: sl.fluid_overflow_sustained_bits,
                overflow_volume_bits: sl.fluid_overflow_volume_bits,
            },
        ),
        SynthKind::Bassmidi => {
            let multithreading = if sl.bass_multithreading {
                Some(
                    BassMidiThreading {
                        thread_count: if sl.bass_thread_count > 0 {
                            Some(sl.bass_thread_count as usize)
                        } else {
                            None
                        },
                        keyboard_divisions: clamp_i32(sl.bass_keyboard_divisions, 1, 255) as u8,
                    },
                )
            } else {
                None
            };
            SynthConfig::BassMidi(
                BassMidiConfig {
                    voice_limit: max_i32(sl.bass_voice_limit, 1) as u32,
                    render_time_limit_bits: sl.bass_render_time_limit_bits,
                    interpolation: bass_interpolation_from(sl.bass_interpolation - 1),
                    multithreading,
                    disable_effects: sl.bass_disable_effects,
                    fade_out_killing: sl.bass_fade_out_killing,
                    follow_overlaps: sl.bass_follow_overlaps,
                    sf_linear_attack_mod: sl.bass_sf_linear_attack_mod,
                    sf_linear_decay_vol: sl.bass_sf_linear_decay_vol,
                    sf_minfx: sl.bass_sf_minfx,
                    sf_nofx: sl.bass_sf_nofx,
                    sf_no_rampin: sl.bass_sf_no_rampin,
                    sf_sb_limits: sl.bass_sf_sb_limits,
                    sf_xg_drums: sl.bass_sf_xg_drums,
                },
            )
        },
    }
}

/// A synthesizer configuration the editor can show without loss: voice
/// limits and note lengths that fit the editor's integers, at least one
/// voice, an explicit thread count of at least one, at least one keyboard
/// division.
pub open spec fn synth_editable(synth: SynthConfig) -> bool {
    &&& synth_wf(synth)
    &&& match synth {
        SynthConfig::FluidSynth(c) => {
            &&& 1 <= c.voice_limit <= i32::MAX
            &&& c.minimum_note_length <= i32::MAX
        },
        SynthConfig::BassMidi(c) => {
            &&& 1 <= c.voice_limit <= i32::MAX
            &&& match c.multithreading {
                Some(mt) => {
                    &&& mt.keyboard_divisions >= 1
                    &&& match mt.thread_count {
                        Some(n) => 1 <= n <= i32::MAX,
                        None => true,
                    }
                },
                None => true,
            }
        },
    }
}

/// Showing a synthesizer configuration in the editor and saving it back
/// without edits gives the same configuration.
pub proof fn law_synth_editor_roundtrip(synth: SynthConfig)
    requires
        synth_editable(synth),
    ensures
        spec_slint_to_synth(spec_synth_to_slint(synth)) == synth,
{
    match synth {
        SynthConfig::FluidSynth(c) => {
            let back = spec_slint_to_synth(spec_synth_to_slint(synth));
            assert(back == synth);
        },
        SynthConfig::BassMidi(c) => {
            let back = spec_slint_to_synth(spec_synth_to_slint(synth));
            assert(back == synth);
        },
    }
}

/// Number of per-port and per-channel flags the editor shows.
pub const EVENT_FLAG_SLOTS: usize = 16;

/// The flags for a list of selected slots: slot `k` is set exactly when `k`
/// is listed; listed values past the last slot are ignored.
pub open spec fn flags_of(indices: Seq<u8>) -> Seq<bool> {
    Seq::new(16, |k: int| indices.contains(k as u8))
}

/// The set slots among the first `n` flags, ascending.
pub open spec fn true_indices(flags: Seq<bool>, n: nat) -> Seq<u8>
    decreases n,
{
    if n == 0 {
        Seq::empty()
    } else if flags[n - 1] {
        true_indices(flags, (n - 1) as nat).push((n - 1) as u8)
    } else {
        true_indices(flags, (n - 1) as nat)
    }
}

fn indices_to_flags(indices: &Vec<u8>) -> (flags: Vec<bool>)
    ensures
        flags@ == flags_of(indices@),
{
    let mut flags = vec![false; EVENT_FLAG_SLOTS];
    let mut i: usize = 0;
    while i < indices.len()
        invariant
            0 <= i <= indices@.len(),
            flags@.len() == 16,
            forall|k: int|
                0 <= k < 16 ==> flags@[k] == indices@.subrange(0, i as int).contains(k as u8),
        decreases indices@.len() - i,
    {
        let slot = indices[i];
        proof {
            assert forall|k: int| 0 <= k < 16 implies #[trigger] indices@.subrange(
                0,
                i as int + 1,
            ).contains(k as u8) == (indices@.subrange(0, i as int).contains(k as u8) || slot == k as u8) by {
                let pre = indices@.subrange(0, i as int);
                let post = indices@.subrange(0, i as int + 1);
                assert(post =~= pre.push(slot));
                if post.contains(k as u8) {
                    let j = post.index_of(k as u8);
                    if j < pre.len() {
                        assert(pre[j] == k as u8);
                    }
                }
                if pre.contains(k as u8) {
                    let j = pre.index_of(k as u8);
                    assert(post[j] == k as u8);
                }
                if slot == k as u8 {
                    assert(post[i as int] == slot);
                }
            }
        }
        if (slot as usize) < EVENT_FLAG_SLOTS {
            flags.set(slot as usize, true);
        }
        i = i + 1;
    }
    proof {
        assert(indices@.subrange(0, indices@.len() as int) =~= indices@);
        assert(flags@ =~= flags_of(indices@));
    }
    flags
}

fn flags_to_indices(flags: &Vec<bool>) -> (indices: Vec<u8>)
    ensures
        indices@ == true_indices(flags@, flags@.len()),
{
    let mut out: Vec<u8> = Vec::new();
    let mut i: usize = 0;
    while i < flags.len()
        invariant
            0 <= i <= flags@.len(),
            out@ == true_indices(flags@, i as nat),
        decreases flags@.len() - i,
    {
        if flags[i] {
            out.push(i as u8);
        }
        i = i + 1;
    }
    out
}

proof fn lemma_true_indices_members(flags: Seq<bool>, n: nat, k: int)
    requires
        n <= 256,
        n <= flags.len(),
        0 <= k < 256,
    ensures
        true_indices(flags, n).contains(k as u8) <==> (k < n && flags[k]),
    decreases n,
{
    if n > 0 {
        lemma_true_indices_members(flags, (n - 1) as nat, k);
        let pre = true_indices(flags, (n - 1) as nat);
        if flags[n - 1] {
            let post = pre.push((n - 1) as u8);
            if post.contains(k as u8) {
                let j = post.index_of(k as u8);
                if j < pre.len() {
                    assert(pre[j] == k as u8);
                }
            }
            if pre.contains(k as u8) {
                let j = pre.index_of(k as u8);
                assert(post[j] == k as u8);
            }
            if k == n - 1 {
                assert(post[pre.len() as int] == k as u8);
            }
        }
    }
}

proof fn lemma_true_indices_sorted(flags: Seq<bool>, n: nat)
    requires
        n <= 256,
        n <= flags.len(),
    ensures
        forall|a: int, b: int|
            0 <= a < b < true_indices(flags, n).len() ==> true_indices(flags, n)[a] < true_indices(
                flags,
                n,
            )[b],
        forall|a: int| 0 <= a < true_indices(flags, n).len() ==> true_indices(flags, n)[a] < n,
    decreases n,
{
    if n > 0 {
        lemma_true_indices_sorted(flags, (n - 1) as nat);
        let pre = true_indices(flags, (n - 1) as nat);
        let cur = true_indices(flags, n);
        if flags[n - 1] {
            assert(cur == pre.push((n - 1) as u8));
            assert forall|a: int| 0 <= a < cur.len() implies cur[a] < n by {
                if a < pre.len() {
                    assert(cur[a] == pre[a]);
                }
            }
            assert forall|a: int, b: int| 0 <= a < b < cur.len() implies cur[a] < cur[b] by {
                assert(cur[a] == pre[a]);
                if b < pre.len() {
                    assert(cur[b] == pre[b]);
                }
            }
        }
    }
}

/// Flags saved as a slot list and shown again are the same flags.
pub proof fn law_flags_roundtrip(flags: Seq<bool>)
    requires
        flags.len() == 16,
    ensures
        flags_of(true_indices(flags, 16)) == flags,
{
    assert forall|k: int| 0 <= k < 16 implies flags_of(true_indices(flags, 16))[k] == flags[k] by {
        lemma_true_indices_members(flags, 16, k);
    }
    assert(flags_of(true_indices(flags, 16)) =~= flags);
}

/// A slot list shown and saved again is normalised: ascending, without
/// repeats, only real slots, and exactly the real slots it listed.
pub proof fn law_slot_list_normalised(indices: Seq<u8>)
    ensures
        forall|a: int, b: int|
            0 <= a < b < true_indices(flags_of(indices), 16).len() ==> true_indices(
                flags_of(indices),
                16,
            )[a] < true_indices(flags_of(indices), 16)[b],
        forall|v: u8|
            true_indices(flags_of(indices), 16).contains(v) <==> (v < 16 && indices.contains(v)),
{
    lemma_true_indices_sorted(flags_of(indices), 16);
    assert forall|v: u8| true_indices(flags_of(indices), 16).contains(v) <==> (v < 16
        && indices.contains(v)) by {
        lemma_true_indices_members(flags_of(indices), 16, v as int);
    }
}

/// The editor's event-processor values.
#[derive(Debug, Clone)]
pub struct SlintEventProcessorConfig {
    pub bypass_channels: Vec<bool>,
    pub ignore_channels: Vec<bool>,
    pub bypass_ports: Vec<bool>,
    pub ignore_ports: Vec<bool>,
    pub fixed_velocity: i32,
    pub transpose: i32,
    /// Bit pattern of the velocity multiplier (`f32`).
    pub velocity_multiplier_bits: u32,
    pub velocity_threshold: i32,
    /// Bit pattern of the velocity curve exponent (`f32`).
    pub velocity_curve_bits: u32,
    pub key_range_low: i32,
    pub key_range_high: i32,
    pub ignore_program_change: bool,
    pub ignore_sysex: bool,
}

/// How the editor shows an event-processor section: each slot list as
/// sixteen flags, the numbers widened, the rest as it is.
pub open spec fn evproc_shown_as(e: EventProcessorConfig, sl: SlintEventProcessorConfig) -> bool {
    &&& sl.bypass_channels@ == flags_of(e.bypass_channels@)
    &&& sl.ignore_channels@ == flags_of(e.ignore_channels@)
    &&& sl.bypass_ports@ == flags_of(e.bypass_ports@)
    &&& sl.ignore_ports@ == flags_of(e.ignore_ports@)
    &&& sl.fixed_velocity == e.fixed_velocity as i32
    &&& sl.transpose == e.transpose as i32
    &&& sl.velocity_multiplier_bits == e.velocity_multiplier_bits
    &&& sl.velocity_threshold == e.velocity_threshold as i32
    &&& sl.velocity_curve_bits == e.velocity_curve_bits
    &&& sl.key_range_low == e.key_range_low as i32
    &&& sl.key_range_high == e.key_range_high as i32
    &&& sl.ignore_program_change == e.ignore_program_change
    &&& sl.ignore_sysex == e.ignore_sysex
}

pub fn evproc_to_slint(e: &EventProcessorConfig) -> (sl: SlintEventProcessorConfig)
    ensures
        evproc_shown_as(*e, sl),
{
    SlintEventProcessorConfig {
        bypass_channels: indices_to_flags(&e.bypass_channels),
        ignore_channels: indices_to_flags(&e.ignore_channels),
        bypass_ports: indices_to_flags(&e.bypass_ports),
        ignore_ports: indices_to_flags(&e.ignore_ports),
        fixed_velocity: e.fixed_velocity as i32,
        transpose: e.transpose as i32,
        velocity_multiplier_bits: e.velocity_multiplier_bits,
        velocity_threshold: e.velocity_threshold as i32,
        velocity_curve_bits: e.velocity_curve_bits,
        key_range_low: e.key_range_low as i32,
        key_range_high: e.key_range_high as i32,
        ignore_program_change: e.ignore_program_change,
        ignore_sysex: e.ignore_sysex,
    }
}

/// `x.max(0.0)` on the bit pattern of `x`: NaNs and negative values
/// (negative zero included) become positive zero, anything else is kept.
pub open spec fn f32_max_zero(bits: u32) -> u32 {
    if f32_is_nan(bits) || bits >= 0x80000000 {
        0
    } else {
        bits
    }
}

fn f32_bits_max_zero(bits: u32) -> (r: u32)
    ensures
        r == f32_max_zero(bits),
{
    let exponent = (bits >> 23u32) & 0xFF;
    let mantissa = bits & 0x7FFFFF;
    assert(exponent == (bits / 0x800000) % 256 && mantissa == bits % 0x800000) by (bit_vector)
        requires
            exponent == (bits >> 23u32) & 0xFF,
            mantissa == bits & 0x7FFFFF,
    ;
    if (exponent == 0xFF && mantissa != 0) || bits >= 0x80000000 {
        0
    } else {
        bits
    }
}

/// How the editor's values are saved: each row of flags as the ascending
/// list of set slots, the numbers pinned to their ranges, a negative or NaN
/// velocity curve as zero.
pub open spec fn evproc_read_as(sl: SlintEventProcessorConfig, e: EventProcessorConfig) -> bool {
    &&& e.bypass_ports@ == true_indices(sl.bypass_ports@, sl.bypass_ports@.len())
    &&& e.ignore_ports@ == true_indices(sl.ignore_ports@, sl.ignore_ports@.len())
    &&& e.bypass_channels@ == true_indices(sl.bypass_channels@, sl.bypass_channels@.len())
    &&& e.ignore_channels@ == true_indices(sl.ignore_channels@, sl.ignore_channels@.len())
    &&& e.fixed_velocity == pinned(sl.fixed_velocity, 0, 127)
    &&& e.transpose == pinned(sl.transpose, -127i32, 127)
    &&& e.velocity_multiplier_bits == sl.velocity_multiplier_bits
    &&& e.velocity_threshold == pinned(sl.velocity_threshold, 0, 127)
    &&& e.velocity_curve_bits == f32_max_zero(sl.velocity_curve_bits)
    &&& e.key_range_low == pinned(sl.key_range_low, 0, 127)
    &&& e.key_range_high == pinned(sl.key_range_high, 0, 127)
    &&& e.ignore_program_change == sl.ignore_program_change
    &&& e.ignore_sysex == sl.ignore_sysex
}

pub fn slint_to_evproc(sl: &SlintEventProcessorConfig) -> (e: EventProcessorConfig)
    ensures
        evproc_read_as(*sl, e),
{
    EventProcessorConfig {
        bypass_ports: flags_to_indices(&sl.bypass_ports),
        ignore_ports: flags_to_indices(&sl.ignore_ports),
        bypass_channels: flags_to_indices(&sl.bypass_channels),
        ignore_channels: flags_to_indices(&sl.ignore_channels),
        fixed_velocity: clamp_i32(sl.fixed_velocity, 0, 127) as u8,
        transpose: clamp_i32(sl.transpose, -127, 127) as i8,
        velocity_multiplier_bits: sl.velocity_multiplier_bits,
        velocity_threshold: clamp_i32(sl.velocity_threshold, 0, 127) as u8,
        velocity_curve_bits: f32_bits_max_zero(sl.velocity_curve_bits),
        key_range_low: clamp_i32(sl.key_range_low, 0, 127) as u8,
        key_range_high: clamp_i32(sl.key_range_high, 0, 127) as u8,
        ignore_program_change: sl.ignore_program_change,
        ignore_sysex: sl.ignore_sysex,
    }
}

/// A slot list the editor can show exactly: ascending without repeats, only
/// real slots.
pub open spec fn is_slot_list(s: Seq<u8>) -> bool {
    &&& forall|a: int, b: int| 0 <= a < b < s.len() ==> s[a] < s[b]
    &&& forall|a: int| 0 <= a < s.len() ==> s[a] < 16
}

/// Two ascending lists without repeats that hold the same values are equal.
proof fn lemma_ascending_same_members(s: Seq<u8>, t: Seq<u8>)
    requires
        forall|a: int, b: int| 0 <= a < b < s.len() ==> s[a] < s[b],
        forall|a: int, b: int| 0 <= a < b < t.len() ==> t[a] < t[b],
        forall|v: u8| s.contains(v) <==> t.contains(v),
    ensures
        s == t,
    decreases s.len() + t.len(),
{
    if s.len() == 0 {
        if t.len() > 0 {
            assert(t.contains(t[0]));
        }
        assert(s =~= t);
    } else if t.len() == 0 {
        assert(s.contains(s[0]));
    } else {
        let x = s.last();
        let y = t.last();
        assert(s.contains(x));
        assert(t.contains(y));
        let i = t.index_of(x);
        let j = s.index_of(y);
        assert(t[i] <= y) by {
            if i < t.len() - 1 {
            }
        }
        assert(s[j] <= x) by {
            if j < s.len() - 1 {
            }
        }
        assert(x == y);
        let s1 = s.drop_last();
        let t1 = t.drop_last();
        assert forall|v: u8| s1.contains(v) <==> t1.contains(v) by {
            if s1.contains(v) {
                let a = s1.index_of(v);
                assert(s[a] == v && v < x);
                assert(t.contains(v));
                let b = t.index_of(v);
                assert(b != t.len() - 1);
                assert(t1[b] == v);
            }
            if t1.contains(v) {
                let b = t1.index_of(v);
                assert(t[b] == v && v < y);
                assert(s.contains(v));
                let a = s.index_of(v);
                assert(a != s.len() - 1);
                assert(s1[a] == v);
            }
        }
        lemma_ascending_same_members(s1, t1);
        assert(s =~= s1.push(x));
        assert(t =~= t1.push(y));
    }
}

/// A slot list the editor can show comes back from the flags unchanged.
proof fn lemma_slot_list_roundtrip(s: Seq<u8>)
    requires
        is_slot_list(s),
    ensures
        true_indices(flags_of(s), 16) == s,
{
    law_slot_list_normalised(s);
    let t = true_indices(flags_of(s), 16);
    assert forall|v: u8| t.contains(v) <==> s.contains(v) by {
        if s.contains(v) {
            let a = s.index_of(v);
            assert(s[a] < 16);
        }
    }
    lemma_ascending_same_members(t, s);
}

/// An event-processor section the editor can show exactly: slot lists in
/// normal form, the numbers within the editor's ranges, floats that are not
/// NaN and a velocity curve that is not below zero (negative zero is zero).
pub open spec fn evproc_editable(e: EventProcessorConfig) -> bool {
    &&& is_slot_list(e.bypass_ports@)
    &&& is_slot_list(e.ignore_ports@)
    &&& is_slot_list(e.bypass_channels@)
    &&& is_slot_list(e.ignore_channels@)
    &&& e.fixed_velocity <= 127
    &&& e.velocity_threshold <= 127
    &&& e.key_range_low <= 127
    &&& e.key_range_high <= 127
    &&& e.transpose >= -127
    &&& !f32_is_nan(e.velocity_multiplier_bits)
    &&& !f32_is_nan(e.velocity_curve_bits)
    &&& e.velocity_curve_bits <= 0x80000000
}

/// An event-processor section shown in the editor and saved unchanged holds
/// the same settings it had.
pub proof fn law_evproc_editor_roundtrip(
    e: EventProcessorConfig,
    sl: SlintEventProcessorConfig,
    back: EventProcessorConfig,
)
    requires
        evproc_editable(e),
        evproc_shown_as(e, sl),
        evproc_read_as(sl, back),
    ensures
        same_event_processor(back, e),
{
    lemma_slot_list_roundtrip(e.bypass_ports@);
    lemma_slot_list_roundtrip(e.ignore_ports@);
    lemma_slot_list_roundtrip(e.bypass_channels@);
    lemma_slot_list_roundtrip(e.ignore_channels@);
}

/// The editor's post-processor values; the limiter times are shown even
/// while the limiter is off.
#[derive(Debug, Clone, Copy, PartialEq, Eq, Structural)]
pub struct SlintPostProcessorConfig {
    pub volume_bits: u32,
    pub has_limiter: bool,
    pub limiter_attack_ms_bits: u32,
    pub limiter_release_ms_bits: u32,
}

pub open spec fn spec_postproc_to_slint(p: PostProcessorConfig) -> SlintPostProcessorConfig {
    let lim = match p.limiter {
        Some(l) => l,
        None => AudioLimiterConfig::spec_default(),
    };
    SlintPostProcessorConfig {
        volume_bits: p.volume_bits,
        has_limiter: p.limiter is Some,
        limiter_attack_ms_bits: lim.attack_ms_bits,
        limiter_release_ms_bits: lim.release_ms_bits,
    }
}

pub open spec fn spec_slint_to_postproc(sl: SlintPostProcessorConfig) -> PostProcessorConfig {
    PostProcessorConfig {
        volume_bits: sl.volume_bits,
        limiter: if sl.has_limiter {
            Some(
                AudioLimiterConfig {
                    attack_ms_bits: sl.limiter_attack_ms_bits,
                    release_ms_bits: sl.limiter_release_ms_bits,
                },
            )
        } else {
            None
        },
    }
}

pub fn postproc_to_slint(p: &PostProcessorConfig) -> (sl: SlintPostProcessorConfig)
    ensures
        sl == spec_postproc_to_slint(*p),
{
    let lim = match p.limiter {
        Some(l) => l,
        None => AudioLimiterConfig::default(),
    };
    SlintPostProcessorConfig {
        volume_bits: p.volume_bits,
        has_limiter: p.limiter.is_some(),
        limiter_attack_ms_bits: lim.attack_ms_bits,
        limiter_release_ms_bits: lim.release_ms_bits,
    }
}

pub fn slint_to_postproc(sl: &SlintPostProcessorConfig) -> (p: PostProcessorConfig)
    ensures
        p == spec_slint_to_postproc(*sl),
{
    PostProcessorConfig {
        volume_bits: sl.volume_bits,
        limiter: if sl.has_limiter {
            Some(
                AudioLimiterConfig {
                    attack_ms_bits: sl.limiter_attack_ms_bits,
                    release_ms_bits: sl.limiter_release_ms_bits,
                },
            )
        } else {
            None
        },
    }
}

/// Post-processor settings shown in the editor and saved back are unchanged.
pub proof fn law_postproc_roundtrip(p: PostProcessorConfig)
    ensures
        spec_slint_to_postproc(spec_postproc_to_slint(p)) == p,
{
}

/// The editor's converter values.
#[derive(Debug, Clone)]
pub struct SlintConverterCustom {
    pub multithreaded_export: bool,
    pub export_threads: i32,
    pub output_format: i32,
    pub wav_bit_depth: i32,
    pub bitrate_index: i32,
    pub output_path: String,
}

/// The values of the editor's converter fields.
pub struct SlintConverterView {
    pub multithreaded_export: bool,
    pub export_threads: i32,
    pub output_format: i32,
    pub wav_bit_depth: i32,
    pub bitrate_index: i32,
    pub output_path: Seq<char>,
}

impl View for SlintConverterCustom {
    type V = SlintConverterView;

    open spec fn view(&self) -> SlintConverterView {
        SlintConverterView {
            multithreaded_export: self.multithreaded_export,
            export_threads: self.export_threads,
            output_format: self.output_format,
            wav_bit_depth: self.wav_bit_depth,
            bitrate_index: self.bitrate_index,
            output_path: self.output_path@,
        }
    }
}

/// `sl` shows converter settings `c`: each field converted, the bitrate as
/// the index of the nearest selectable bitrate.
pub open spec fn converter_shown(c: ConverterView, sl: SlintConverterView) -> bool {
    &&& sl.multithreaded_export == c.multithreaded_export
    &&& sl.export_threads == c.export_threads as i32
    &&& sl.output_format == format_index(c.output_format)
    &&& sl.wav_bit_depth == depth_index(c.wav_bit_depth)
    &&& nearest_bitrate(c.bitrate_kbps, sl.bitrate_index as int)
    &&& sl.output_path == c.output_path
}

/// The converter settings the editor's values stand for; a negative thread
/// count means automatic (0).
pub open spec fn converter_read(sl: SlintConverterView) -> ConverterView {
    ConverterView {
        multithreaded_export: sl.multithreaded_export,
        export_threads: at_least(sl.export_threads, 0) as usize,
        output_format: format_at(sl.output_format),
        wav_bit_depth: depth_at(sl.wav_bit_depth),
        bitrate_kbps: bitrate_for_index(sl.bitrate_index),
        output_path: sl.output_path,
    }
}

pub fn converter_custom_to_slint(c: &ConverterCustom) -> (sl: SlintConverterCustom)
    ensures
        converter_shown(c@, sl@),
{
    SlintConverterCustom {
        multithreaded_export: c.multithreaded_export,
        export_threads: c.export_threads as i32,
        output_format: output_format_to_index(c.output_format),
        wav_bit_depth: wav_bit_depth_to_index(c.wav_bit_depth),
        bitrate_index: bitrate_to_index(c.bitrate_kbps),
        output_path: c.output_path.clone(),
    }
}

pub fn slint_to_converter_custom(sl: &SlintConverterCustom) -> (c: ConverterCustom)
    ensures
        c@ == converter_read(sl@),
{
    ConverterCustom {
        multithreaded_export: sl.multithreaded_export,
        export_threads: max_i32(sl.export_threads, 0) as usize,
        output_format: output_format_from_index(sl.output_format),
        wav_bit_depth: wav_bit_depth_from_index(sl.wav_bit_depth),
        bitrate_kbps: bitrate_from_index(sl.bitrate_index),
        output_path: sl.output_path.clone(),
    }
}

/// Converter settings with a thread count the editor can hold and a
/// selectable bitrate are unchanged by showing them and saving them back.
pub proof fn law_converter_editor_roundtrip(c: ConverterView, sl: SlintConverterView)
    requires
        c.export_threads <= i32::MAX,
        bitrates().contains(c.bitrate_kbps),
        converter_shown(c, sl),
    ensures
        converter_read(sl) == c,
{
    law_format_index_roundtrip(c.output_format, c.wav_bit_depth, 0);
    law_bitrate_index_roundtrip(c.bitrate_kbps, sl.bitrate_index as int, 0);
}

/// The editor's virtual-device values.
#[derive(Debug, Clone)]
pub struct SlintSystemCustom {
    pub device_name: String,
    pub num_ports: i32,
    pub midi2_enabled: bool,
    pub idle_timeout_minutes: i32,
}

pub fn system_custom_to_slint(s: &SystemCustomSettings) -> (sl: SlintSystemCustom)
    ensures
        sl.device_name@ == s.device_name@,
        sl.num_ports == s.num_ports as i32,
        sl.midi2_enabled == s.midi2_enabled,
        sl.idle_timeout_minutes == s.idle_timeout_minutes as i32,
{
    SlintSystemCustom {
        device_name: s.device_name.clone(),
        num_ports: s.num_ports as i32,
        midi2_enabled: s.midi2_enabled,
        idle_timeout_minutes: s.idle_timeout_minutes as i32,
    }
}

/// The virtual-device settings the editor's values stand for: at least one
/// port (the count kept to its low byte, as `as u8` does), a negative
/// timeout as no timeout.
pub fn slint_to_system_custom(sl: &SlintSystemCustom) -> (s: SystemCustomSettings)
    ensures
        s.device_name@ == sl.device_name@,
        s.num_ports == at_least(sl.num_ports, 1) as u8,
        s.midi2_enabled == sl.midi2_enabled,
        s.idle_timeout_minutes == at_least(sl.idle_timeout_minutes, 0) as u32,
{
    SystemCustomSettings {
        device_name: sl.device_name.clone(),
        num_ports: max_i32(sl.num_ports, 1) as u8,
        midi2_enabled: sl.midi2_enabled,
        idle_timeout_minutes: max_i32(sl.idle_timeout_minutes, 0) as u32,
    }
}

/// Virtual-device settings with at least one port and a timeout the editor
/// can hold are unchanged by showing them and saving them back.
pub proof fn law_system_custom_roundtrip(num_ports: u8, idle_timeout_minutes: u32)
    requires
        num_ports >= 1,
        idle_timeout_minutes <= i32::MAX,
    ensures
        at_least(num_ports as i32, 1) as u8 == num_ports,
        at_least(idle_timeout_minutes as i32, 0) as u32 == idle_timeout_minutes,
{
}

/// `list` without any `index`, then with `index` once when `on`.
pub open spec fn flag_members(list: Seq<u8>, index: u8, on: bool) -> Multiset<u8> {
    let kept = list.to_multiset().filter(|v: u8| v != index);
    if on {
        kept.insert(index)
    } else {
        kept
    }
}

fn without(list: &Vec<u8>, index: u8) -> (out: Vec<u8>)
    ensures
        out@.to_multiset() == list@.to_multiset().filter(|v: u8| v != index),
        !out@.contains(index),
{
    broadcast use vstd::multiset::group_multiset_axioms;
    let mut out: Vec<u8> = Vec::new();
    let mut i: usize = 0;
    proof {
        vstd::seq_lib::to_multiset_len(out@);
        assert(list@.subrange(0, 0) =~= Seq::<u8>::empty());
        vstd::seq_lib::to_multiset_len(list@.subrange(0, 0));
        assert(list@.subrange(0, 0).to_multiset().filter(|v: u8| v != index) =~= out@.to_multiset());
    }
    while i < list.len()
        invariant
            0 <= i <= list@.len(),
            out@.to_multiset() == list@.subrange(0, i as int).to_multiset().filter(|v: u8| v != index),
            !out@.contains(index),
        decreases list@.len() - i,
    {
        let v = list[i];
        let ghost before = out@;
        proof {
            assert(list@.subrange(0, i as int + 1) =~= list@.subrange(0, i as int).push(v));
            vstd::seq_lib::to_multiset_build(list@.subrange(0, i as int), v);
        }
        if v != index {
            out.push(v);
            proof {
                vstd::seq_lib::to_multiset_build(before, v);
                assert(out@.to_multiset() =~= list@.subrange(0, i as int + 1).to_multiset().filter(
                    |x: u8| x != index,
                ));
                assert forall|x: u8| out@.contains(x) implies x != index by {
                    let j = out@.index_of(x);
                    if j < before.len() {
                        assert(before[j] == x);
                    }
                }
            }
        } else {
            proof {
                assert(out@.to_multiset() =~= list@.subrange(0, i as int + 1).to_multiset().filter(
                    |x: u8| x != index,
                ));
            }
        }
        i = i + 1;
    }
    proof {
        assert(list@.subrange(0, list@.len() as int) =~= list@);
    }
    out
}

/// Sorts bytes ascending.
fn sort_bytes(v: Vec<u8>) -> (out: Vec<u8>)
    ensures
        out@.to_multiset() == v@.to_multiset(),
        forall|a: int, b: int| 0 <= a < b < out@.len() ==> out@[a] <= out@[b],
{
    let mut out: Vec<u8> = Vec::new();
    let mut i: usize = 0;
    proof {
        assert(v@.subrange(0, 0) =~= out@);
    }
    while i < v.len()
        invariant
            0 <= i <= v@.len(),
            out@.to_multiset() == v@.subrange(0, i as int).to_multiset(),
            forall|a: int, b: int| 0 <= a < b < out@.len() ==> out@[a] <= out@[b],
        decreases v@.len() - i,
    {
        let key = v[i];
        let mut p: usize = 0;
        while p < out.len() && out[p] <= key
            invariant
                0 <= p <= out@.len(),
                forall|q: int| 0 <= q < p ==> out@[q] <= key,
            decreases out@.len() - p,
        {
            p = p + 1;
        }
        let ghost before = out@;
        out.insert(p, key);
        proof {
            vstd::seq_lib::to_multiset_insert(before, p as int, key);
            assert(v@.subrange(0, i as int + 1) =~= v@.subrange(0, i as int).push(key));
            vstd::seq_lib::to_multiset_build(v@.subrange(0, i as int), key);
            assert(before.insert(p as int, key) == out@);
            assert forall|a: int, b: int| 0 <= a < b < out@.len() implies out@[a] <= out@[b] by {
                if b < p {
                } else if b == p {
                } else if a < p {
                    if p < before.len() {
                        assert(before[p as int] > key);
                    }
                } else if a == p {
                    assert(before[p as int] > key);
                } else {
                }
            }
        }
        i = i + 1;
    }
    proof {
        assert(v@.subrange(0, v@.len() as int) =~= v@);
    }
    out
}

/// Turns one flag of a slot list on or off: the list without that slot, the
/// slot added back when on, in ascending order. A slot index that does not
/// fit a byte leaves the list unchanged.
pub fn set_flag(list: &Vec<u8>, index: i32, on: bool) -> (out: Vec<u8>)
    ensures
        !(0 <= index <= 255) ==> out@ == list@,
        0 <= index <= 255 ==> out@.to_multiset() == flag_members(list@, index as u8, on)
            && forall|a: int, b: int| 0 <= a < b < out@.len() ==> out@[a] <= out@[b],
{
    broadcast use vstd::multiset::group_multiset_axioms;
    if index < 0 || index > 255 {
        return list.clone();
    }
    let slot = index as u8;
    let mut kept = without(list, slot);
    let ghost base = kept@;
    if on {
        kept.push(slot);
        proof {
            vstd::seq_lib::to_multiset_build(base, slot);
        }
    }
    sort_bytes(kept)
}

/// The editor's audio format values.
#[derive(Debug, Clone, Copy, PartialEq, Eq, Structural)]
pub struct SlintAudioParameters {
    pub channels: i32,
    pub sample_rate: i32,
}

pub fn audio_params_to_slint(a: &AudioParameters) -> (sl: SlintAudioParameters)
    ensures
        sl.channels == match a.channels {
            ChannelCount::Mono => 1i32,
            ChannelCount::Stereo => 2,
        },
        sl.sample_rate == a.sample_rate as i32,
{
    SlintAudioParameters {
        channels: match a.channels {
            ChannelCount::Mono => 1,
            ChannelCount::Stereo => 2,
        },
        sample_rate: a.sample_rate as i32,
    }
}

/// The audio format the editor's values stand for: one channel is mono,
/// anything else stereo; the sample rate is at least 1.
pub fn slint_to_audio_params(sl: &SlintAudioParameters) -> (a: AudioParameters)
    ensures
        a.channels == if sl.channels == 1 {
            ChannelCount::Mono
        } else {
            ChannelCount::Stereo
        },
        a.sample_rate == at_least(sl.sample_rate, 1) as u32,
{
    AudioParameters {
        channels: if sl.channels == 1 {
            ChannelCount::Mono
        } else {
            ChannelCount::Stereo
        },
        sample_rate: max_i32(sl.sample_rate, 1) as u32,
    }
}

/// An audio format with a sample rate the editor can hold is unchanged by
/// showing it and saving it back.
pub proof fn law_audio_params_roundtrip(a: AudioParameters)
    requires
        1 <= a.sample_rate <= i32::MAX,
    ensures
        (if (match a.channels {
            ChannelCount::Mono => 1i32,
            ChannelCount::Stereo => 2,
        }) == 1 {
            ChannelCount::Mono
        } else {
            ChannelCount::Stereo
        }) == a.channels,
        at_least(a.sample_rate as i32, 1) as u32 == a.sample_rate,
{
}

/// NPS limit shown while the limit is off.
pub const DEFAULT_MAX_NPS: usize = 100000;

/// Buffer size shown while the device chooses its own.
pub const DEFAULT_BUFFER_SIZE: u32 = 512;

/// The editor's realtime output values; the buffer length is the bit
/// pattern of its `f32` milliseconds.
#[derive(Debug, Clone, Copy, PartialEq, Eq, Structural)]
pub struct SlintRealtimeConfig {
    pub device_audio_params: bool,
    pub render_buffer_ms_bits: u32,
    pub precision_playback: bool,
    pub max_nps: i32,
    pub has_max_nps: bool,
    pub audio_host_index: i32,
    pub output_device_index: i32,
    pub buffer_size: i32,
    pub has_buffer_size: bool,
}

pub fn realtime_to_slint(rt: &RealtimeConfig, audio: &AudioDeviceCache) -> (sl: SlintRealtimeConfig)
    requires
        audio.host_ids@.len() < i32::MAX,
        audio.device_ids@.len() < i32::MAX,
    ensures
        sl.device_audio_params == rt.device_audio_params,
        sl.render_buffer_ms_bits == rt.render_buffer_ms_bits,
        sl.precision_playback == rt.precision_playback,
        sl.max_nps == (match rt.max_nps {
            Some(n) => n,
            None => DEFAULT_MAX_NPS,
        }) as i32,
        sl.has_max_nps == rt.max_nps is Some,
        sl.audio_host_index == id_index(
            crate::fmt::views(audio.host_ids@),
            crate::engine_cfg::opt_str(rt.audio_host),
        ),
        sl.output_device_index == id_index(
            crate::fmt::views(audio.device_ids@),
            crate::engine_cfg::opt_str(rt.output_device),
        ),
        sl.buffer_size == (match rt.buffer_size {
            Some(b) => b,
            None => DEFAULT_BUFFER_SIZE,
        }) as i32,
        sl.has_buffer_size == rt.buffer_size is Some,
{
    let host = match &rt.audio_host {
        Some(h) => Some(h.as_str()),
        None => None,
    };
    let device = match &rt.output_device {
        Some(d) => Some(d.as_str()),
        None => None,
    };
    SlintRealtimeConfig {
        device_audio_params: rt.device_audio_params,
        render_buffer_ms_bits: rt.render_buffer_ms_bits,
        precision_playback: rt.precision_playback,
        max_nps: match rt.max_nps {
            Some(n) => n as i32,
            None => DEFAULT_MAX_NPS as i32,
        },
        has_max_nps: rt.max_nps.is_some(),
        audio_host_index: audio.host_index(host),
        output_device_index: audio.device_index(device),
        buffer_size: match rt.buffer_size {
            Some(b) => b as i32,
            None => DEFAULT_BUFFER_SIZE as i32,
        },
        has_buffer_size: rt.buffer_size.is_some(),
    }
}

/// The realtime settings the editor's values stand for: the host and device
/// at the selected entries (none for "default"), an NPS limit of at least
/// zero when on, a buffer size only when on and positive.
pub fn slint_to_realtime(sl: &SlintRealtimeConfig, audio: &AudioDeviceCache) -> (rt: RealtimeConfig)
    requires
        sl.audio_host_index > i32::MIN,
        sl.output_device_index > i32::MIN,
    ensures
        rt.device_audio_params == sl.device_audio_params,
        rt.render_buffer_ms_bits == sl.render_buffer_ms_bits,
        rt.precision_playback == sl.precision_playback,
        rt.max_nps == if sl.has_max_nps {
            Some(at_least(sl.max_nps, 0) as usize)
        } else {
            None
        },
        crate::engine_cfg::opt_str(rt.audio_host) == id_at(
            crate::fmt::views(audio.host_ids@),
            sl.audio_host_index,
        ),
        crate::engine_cfg::opt_str(rt.output_device) == id_at(
            crate::fmt::views(audio.device_ids@),
            sl.output_device_index,
        ),
        rt.buffer_size == if sl.has_buffer_size && sl.buffer_size > 0 {
            Some(sl.buffer_size as u32)
        } else {
            None
        },
{
    let host = audio.host_id(sl.audio_host_index);
    let device = audio.device_id(sl.output_device_index);
    RealtimeConfig {
        device_audio_params: sl.device_audio_params,
        render_buffer_ms_bits: sl.render_buffer_ms_bits,
        precision_playback: sl.precision_playback,
        max_nps: if sl.has_max_nps {
            Some(max_i32(sl.max_nps, 0) as usize)
        } else {
            None
        },
        audio_host: host,
        output_device: device,
        buffer_size: if sl.has_buffer_size && sl.buffer_size > 0 {
            Some(sl.buffer_size as u32)
        } else {
            None
        },
    }
}

/// The buffer sizes offered for a device's supported range: the powers of
/// two from 16 up to 16384 that fall inside it (a missing or empty range
/// counts as 32..16384); when none does, the range's ends.
pub open spec fn buffer_size_list(range: Option<(u32, u32)>) -> Seq<u32> {
    let (min, max) = match range {
        Some((lo, hi)) => if lo <= hi && hi > 0 {
            (lo, hi)
        } else {
            (32u32, 16384u32)
        },
        None => (32u32, 16384u32),
    };
    let powers = Seq::new(15, |e: int| vstd::arithmetic::power2::pow2(e as nat) as u32).filter(
        |s: u32| s >= min && s >= 16 && s <= max,
    );
    if powers.len() > 0 {
        powers
    } else if max != min {
        seq![min, max]
    } else {
        seq![min]
    }
}

pub fn buffer_sizes(range: Option<(u32, u32)>) -> (sizes: Vec<u32>)
    ensures
        sizes@ == buffer_size_list(range),
{
    let (min, max) = match range {
        Some((lo, hi)) => if lo <= hi && hi > 0 {
            (lo, hi)
        } else {
            (32u32, 16384u32)
        },
        None => (32u32, 16384u32),
    };
    let floor = if min > 16 {
        min
    } else {
        16
    };
    let ghost pred = |s: u32| s >= min && s >= 16 && s <= max;
    let ghost all = Seq::new(15, |e: int| vstd::arithmetic::power2::pow2(e as nat) as u32);
    let mut sizes: Vec<u32> = Vec::new();
    let mut e: u32 = 0;
    proof {
        reveal(Seq::filter);
        assert(all.subrange(0, 0).filter(pred) =~= sizes@);
    }
    while e <= 14
        invariant
            e <= 15,
            floor == if min > 16 {
                min
            } else {
                16
            },
            pred == (|s: u32| s >= min && s >= 16 && s <= max),
            all == Seq::new(15, |e: int| vstd::arithmetic::power2::pow2(e as nat) as u32),
            sizes@ == all.subrange(0, e as int).filter(pred),
        decreases 15 - e,
    {
        proof {
            vstd::arithmetic::power2::lemma2_to64();
            vstd::bits::lemma_u32_shl_is_mul(1u32, e);
        }
        let s: u32 = 1u32 << e;
        proof {
            reveal(Seq::filter);
            let cur = all.subrange(0, e as int + 1);
            assert(cur.drop_last() =~= all.subrange(0, e as int));
            assert(cur.last() == all[e as int]);
            assert(all[e as int] == s);
        }
        if s >= floor && s <= max {
            sizes.push(s);
        }
        e = e + 1;
    }
    proof {
        assert(all.subrange(0, 15) =~= all);
    }
    if sizes.len() == 0 {
        sizes.push(min);
        if max != min {
            sizes.push(max);
        }
    }
    sizes
}

} // verus!
