//! The engine-affecting sections of a component configuration, as plain
//! values. Floating-point settings are carried as their IEEE-754 bit
//! patterns (`f32::to_bits` / `f64::to_bits`); two sections hold the same
//! settings when every float compares equal as a float (positive and
//! negative zero are equal, a NaN equals nothing) and every other setting is
//! the same.

use vstd::prelude::*;

verus! {

/// Whether an `f32` bit pattern is a NaN.
pub open spec fn f32_is_nan(bits: u32) -> bool {
    (bits / 0x800000) % 256 == 255 && bits % 0x800000 != 0
}

/// `==` of two `f32` values given by their bit patterns.
pub open spec fn f32_eq(a: u32, b: u32) -> bool {
    !f32_is_nan(a) && !f32_is_nan(b) && (a == b || (a % 0x80000000 == 0 && b % 0x80000000 == 0))
}

/// Whether an `f64` bit pattern is a NaN.
pub open spec fn f64_is_nan(bits: u64) -> bool {
    (bits / 0x10000000000000) % 2048 == 2047 && bits % 0x10000000000000 != 0
}

/// `==` of two `f64` values given by their bit patterns.
pub open spec fn f64_eq(a: u64, b: u64) -> bool {
    !f64_is_nan(a) && !f64_is_nan(b) && (a == b || (a % 0x8000000000000000 == 0 && b
        % 0x8000000000000000 == 0))
}

/// Compares two `f32` values given by their bit patterns, as `==` does.
pub fn f32_bits_eq(a: u32, b: u32) -> (r: bool)
    ensures
        r == f32_eq(a, b),
{
    let a_nan = (a / 0x800000) % 256 == 255 && a % 0x800000 != 0;
    let b_nan = (b / 0x800000) % 256 == 255 && b % 0x800000 != 0;
    !a_nan && !b_nan && (a == b || (a % 0x80000000 == 0 && b % 0x80000000 == 0))
}

/// Compares two `f64` values given by their bit patterns, as `==` does.
pub fn f64_bits_eq(a: u64, b: u64) -> (r: bool)
    ensures
        r == f64_eq(a, b),
{
    let a_nan = (a / 0x10000000000000) % 2048 == 2047 && a % 0x10000000000000 != 0;
    let b_nan = (b / 0x10000000000000) % 2048 == 2047 && b % 0x10000000000000 != 0;
    !a_nan && !b_nan && (a == b || (a % 0x8000000000000000 == 0 && b % 0x8000000000000000 == 0))
}

#[derive(Debug, Clone, Copy, PartialEq, Eq, Structural)]
pub enum ChannelCount {
    Mono,
    Stereo,
}

#[derive(Debug, Clone, Copy, PartialEq, Eq, Structural)]
pub struct AudioParameters {
    pub channels: ChannelCount,
    pub sample_rate: u32,
}

impl AudioParameters {
    /// Stereo at 48 kHz.
    pub open spec fn spec_default() -> AudioParameters {
        AudioParameters { channels: ChannelCount::Stereo, sample_rate: 48000 }
    }

    pub fn default() -> (p: AudioParameters)
        ensures
            p == Self::spec_default(),
            p.channels == ChannelCount::Stereo,
            p.sample_rate == 48000,
    {
        AudioParameters { channels: ChannelCount::Stereo, sample_rate: 48000 }
    }
}

/// Realtime output settings.
#[derive(Debug, Clone, PartialEq)]
pub struct RealtimeConfig {
    pub device_audio_params: bool,
    /// Bit pattern of the render buffer length in milliseconds (`f32`).
    pub render_buffer_ms_bits: u32,
    pub precision_playback: bool,
    pub max_nps: Option<usize>,
    pub audio_host: Option<String>,
    pub output_device: Option<String>,
    pub buffer_size: Option<u32>,
}

/// The view of an optional string.
pub open spec fn opt_str(s: Option<String>) -> Option<Seq<char>> {
    match s {
        Some(v) => Some(v@),
        None => None,
    }
}

/// Two realtime sections hold the same settings.
pub open spec fn same_realtime(a: RealtimeConfig, b: RealtimeConfig) -> bool {
    &&& a.device_audio_params == b.device_audio_params
    &&& f32_eq(a.render_buffer_ms_bits, b.render_buffer_ms_bits)
    &&& a.precision_playback == b.precision_playback
    &&& a.max_nps == b.max_nps
    &&& opt_str(a.audio_host) == opt_str(b.audio_host)
    &&& opt_str(a.output_device) == opt_str(b.output_device)
    &&& a.buffer_size == b.buffer_size
}

/// Equality of optional strings by content.
pub fn opt_string_eq(a: &Option<String>, b: &Option<String>) -> (r: bool)
    ensures
        r == (opt_str(*a) == opt_str(*b)),
{
    match (a, b) {
        (Some(x), Some(y)) => crate::text::str_eq(x.as_str(), y.as_str()),
        (None, None) => true,
        _ => false,
    }
}

impl RealtimeConfig {
    /// A 10 ms render buffer, no cap on notes per second, the system's audio
    /// host, output device and buffer size, every switch off.
    pub open spec fn spec_default() -> RealtimeConfig {
        RealtimeConfig {
            device_audio_params: false,
            render_buffer_ms_bits: 0x41200000u32,
            precision_playback: false,
            max_nps: None,
            audio_host: None,
            output_device: None,
            buffer_size: None,
        }
    }

    pub fn default() -> (c: RealtimeConfig)
        ensures
            c == Self::spec_default(),
            !c.device_audio_params,
            c.render_buffer_ms_bits == 0x41200000u32,
            !c.precision_playback,
            c.max_nps is None,
            c.audio_host is None,
            c.output_device is None,
            c.buffer_size is None,
    {
        RealtimeConfig {
            device_audio_params: false,
            render_buffer_ms_bits: 0x41200000u32,
            precision_playback: false,
            max_nps: None,
            audio_host: None,
            output_device: None,
            buffer_size: None,
        }
    }

    pub fn same_as(&self, other: &RealtimeConfig) -> (r: bool)
        ensures
            r == same_realtime(*self, *other),
    {
        self.device_audio_params == other.device_audio_params && f32_bits_eq(
            self.render_buffer_ms_bits,
            other.render_buffer_ms_bits,
        ) && self.precision_playback == other.precision_playback
            && self.max_nps == other.max_nps && opt_string_eq(&self.audio_host, &other.audio_host)
            && opt_string_eq(&self.output_device, &other.output_device) && self.buffer_size
            == other.buffer_size
    }
}

#[derive(Debug, Clone, Copy, PartialEq, Eq, Structural)]
pub struct FluidSynthConfig {
    pub voice_limit: u32,
    pub interpolation: i32,
    pub minimum_note_length: u32,
    pub system_id: i32,
    pub chorus_active: bool,
    pub reverb_active: bool,
    /// Bit patterns of the voice-overflow weights (`f64`).
    pub overflow_age_bits: u64,
    pub overflow_percussion_bits: u64,
    pub overflow_released_bits: u64,
    pub overflow_sustained_bits: u64,
    pub overflow_volume_bits: u64,
}

/// FluidSynth interpolation codes: none (0), linear (1), 4th order (4),
/// 7th order (7).
pub open spec fn fluid_interpolation_ok(code: i32) -> bool {
    code == 0 || code == 1 || code == 4 || code == 7
}

/// FluidSynth's default interpolation, 4th order.
pub const FLUID_INTERPOLATION_DEFAULT: i32 = 4;

/// The FluidSynth interpolation a code selects; unknown codes select the
/// default.
pub fn fluid_interpolation_from(code: i32) -> (r: i32)
    ensures
        r == if fluid_interpolation_ok(code) {
            code
        } else {
            FLUID_INTERPOLATION_DEFAULT
        },
{
    if code == 0 || code == 1 || code == 4 || code == 7 {
        code
    } else {
        FLUID_INTERPOLATION_DEFAULT
    }
}

/// BASSMIDI interpolation codes: none (-1), linear (0), 8-point sinc (1),
/// 16-point sinc (2).
pub open spec fn bass_interpolation_ok(code: i32) -> bool {
    -1 <= code <= 2
}

/// BASSMIDI's default interpolation, linear.
pub const BASS_INTERPOLATION_DEFAULT: i32 = 0;

/// The BASSMIDI interpolation a code selects; unknown codes select the
/// default.
pub fn bass_interpolation_from(code: i32) -> (r: i32)
    ensures
        r == if bass_interpolation_ok(code) {
            code
        } else {
            BASS_INTERPOLATION_DEFAULT
        },
{
    if -1 <= code && code <= 2 {
        code
    } else {
        BASS_INTERPOLATION_DEFAULT
    }
}

impl FluidSynthConfig {
    /// 256 voices, 4th-order interpolation, 10 ms minimum note length, chorus
    /// and reverb on, FluidSynth's overflow weights (age 1000, percussion
    /// 4000, released -2000, sustained -1000, volume 500).
    pub open spec fn spec_default() -> FluidSynthConfig {
        FluidSynthConfig {
            voice_limit: 256,
            interpolation: FLUID_INTERPOLATION_DEFAULT,
            minimum_note_length: 10,
            system_id: 0,
            chorus_active: true,
            reverb_active: true,
            overflow_age_bits: 0x408f400000000000u64,
            overflow_percussion_bits: 0x40af400000000000u64,
            overflow_released_bits: 0xc09f400000000000u64,
            overflow_sustained_bits: 0xc08f400000000000u64,
            overflow_volume_bits: 0x407f400000000000u64,
        }
    }

    pub fn default() -> (c: FluidSynthConfig)
        ensures
            c == Self::spec_default(),
    {
        FluidSynthConfig {
            voice_limit: 256,
            interpolation: FLUID_INTERPOLATION_DEFAULT,
            minimum_note_length: 10,
            system_id: 0,
            chorus_active: true,
            reverb_active: true,
            overflow_age_bits: 0x408f400000000000u64,
            overflow_percussion_bits: 0x40af400000000000u64,
            overflow_released_bits: 0xc09f400000000000u64,
            overflow_sustained_bits: 0xc08f400000000000u64,
            overflow_volume_bits: 0x407f400000000000u64,
        }
    }
}

#[derive(Debug, Clone, Copy, PartialEq, Eq, Structural)]
pub struct BassMidiThreading {
    pub thread_count: Option<usize>,
    pub keyboard_divisions: u8,
}

#[derive(Debug, Clone, Copy, PartialEq, Eq, Structural)]
pub struct BassMidiConfig {
    pub voice_limit: u32,
    /// Bit pattern of the render time limit (`f32`).
    pub render_time_limit_bits: u32,
    pub interpolation: i32,
    pub multithreading: Option<BassMidiThreading>,
    pub disable_effects: bool,
    pub fade_out_killing: bool,
    pub follow_overlaps: bool,
    pub sf_linear_attack_mod: bool,
    pub sf_linear_decay_vol: bool,
    pub sf_minfx: bool,
    pub sf_nofx: bool,
    pub sf_no_rampin: bool,
    pub sf_sb_limits: bool,
    pub sf_xg_drums: bool,
}

impl BassMidiConfig {
    /// 1000 voices, no render-time limit, linear interpolation, no
    /// multithreading, every flag off.
    pub open spec fn spec_default() -> BassMidiConfig {
        BassMidiConfig {
            voice_limit: 1000,
            render_time_limit_bits: 0,
            interpolation: BASS_INTERPOLATION_DEFAULT,
            multithreading: None,
            disable_effects: false,
            fade_out_killing: false,
            follow_overlaps: false,
            sf_linear_attack_mod: false,
            sf_linear_decay_vol: false,
            sf_minfx: false,
            sf_nofx: false,
            sf_no_rampin: false,
            sf_sb_limits: false,
            sf_xg_drums: false,
        }
    }

    pub fn default() -> (c: BassMidiConfig)
        ensures
            c == Self::spec_default(),
    {
        BassMidiConfig {
            voice_limit: 1000,
            render_time_limit_bits: 0,
            interpolation: BASS_INTERPOLATION_DEFAULT,
            multithreading: None,
            disable_effects: false,
            fade_out_killing: false,
            follow_overlaps: false,
            sf_linear_attack_mod: false,
            sf_linear_decay_vol: false,
            sf_minfx: false,
            sf_nofx: false,
            sf_no_rampin: false,
            sf_sb_limits: false,
            sf_xg_drums: false,
        }
    }
}

#[derive(Debug, Clone, Copy, PartialEq, Eq, Structural)]
pub enum SynthConfig {
    FluidSynth(FluidSynthConfig),
    BassMidi(BassMidiConfig),
}

#[derive(Debug, Clone, Copy, PartialEq, Eq, Structural)]
pub struct RendererConfig {
    pub port_threads: Option<usize>,
    /// Bit pattern of the render frame rate (`f64`), if capped.
    pub render_fps_bits: Option<u64>,
    /// Bit pattern of the frame-rate variation percentage (`f32`).
    pub render_fps_variation_bits: u32,
    pub synth: SynthConfig,
}

impl RendererConfig {
    /// No port threads, no frame cap, no variation, BASSMIDI with its
    /// defaults.
    pub open spec fn spec_default() -> RendererConfig {
        RendererConfig {
            port_threads: None,
            render_fps_bits: None,
            render_fps_variation_bits: 0,
            synth: SynthConfig::BassMidi(BassMidiConfig::spec_default()),
        }
    }

    pub fn default() -> (c: RendererConfig)
        ensures
            c == Self::spec_default(),
            c.port_threads is None,
            c.render_fps_bits is None,
            c.render_fps_variation_bits == 0,
            c.synth == SynthConfig::BassMidi(BassMidiConfig::spec_default()),
    {
        RendererConfig {
            port_threads: None,
            render_fps_bits: None,
            render_fps_variation_bits: 0,
            synth: SynthConfig::BassMidi(BassMidiConfig::default()),
        }
    }
}

/// Two FluidSynth sections hold the same settings.
pub open spec fn same_fluidsynth(a: FluidSynthConfig, b: FluidSynthConfig) -> bool {
    &&& a.voice_limit == b.voice_limit
    &&& a.interpolation == b.interpolation
    &&& a.minimum_note_length == b.minimum_note_length
    &&& a.system_id == b.system_id
    &&& a.chorus_active == b.chorus_active
    &&& a.reverb_active == b.reverb_active
    &&& f64_eq(a.overflow_age_bits, b.overflow_age_bits)
    &&& f64_eq(a.overflow_percussion_bits, b.overflow_percussion_bits)
    &&& f64_eq(a.overflow_released_bits, b.overflow_released_bits)
    &&& f64_eq(a.overflow_sustained_bits, b.overflow_sustained_bits)
    &&& f64_eq(a.overflow_volume_bits, b.overflow_volume_bits)
}

/// Two BASSMIDI sections hold the same settings.
pub open spec fn same_bassmidi(a: BassMidiConfig, b: BassMidiConfig) -> bool {
    &&& a.voice_limit == b.voice_limit
    &&& f32_eq(a.render_time_limit_bits, b.render_time_limit_bits)
    &&& a.interpolation == b.interpolation
    &&& a.multithreading == b.multithreading
    &&& a.disable_effects == b.disable_effects
    &&& a.fade_out_killing == b.fade_out_killing
    &&& a.follow_overlaps == b.follow_overlaps
    &&& a.sf_linear_attack_mod == b.sf_linear_attack_mod
    &&& a.sf_linear_decay_vol == b.sf_linear_decay_vol
    &&& a.sf_minfx == b.sf_minfx
    &&& a.sf_nofx == b.sf_nofx
    &&& a.sf_no_rampin == b.sf_no_rampin
    &&& a.sf_sb_limits == b.sf_sb_limits
    &&& a.sf_xg_drums == b.sf_xg_drums
}

/// Two synthesizer choices are the same synthesizer with the same settings.
pub open spec fn same_synth(a: SynthConfig, b: SynthConfig) -> bool {
    match (a, b) {
        (SynthConfig::FluidSynth(x), SynthConfig::FluidSynth(y)) => same_fluidsynth(x, y),
        (SynthConfig::BassMidi(x), SynthConfig::BassMidi(y)) => same_bassmidi(x, y),
        _ => false,
    }
}

/// Two optional `f64` values compare equal.
pub open spec fn same_opt_f64(a: Option<u64>, b: Option<u64>) -> bool {
    match (a, b) {
        (Some(x), Some(y)) => f64_eq(x, y),
        (None, None) => true,
        _ => false,
    }
}

/// Two renderer sections hold the same settings.
pub open spec fn same_renderer(a: RendererConfig, b: RendererConfig) -> bool {
    &&& a.port_threads == b.port_threads
    &&& same_opt_f64(a.render_fps_bits, b.render_fps_bits)
    &&& f32_eq(a.render_fps_variation_bits, b.render_fps_variation_bits)
    &&& same_synth(a.synth, b.synth)
}

impl FluidSynthConfig {
    pub fn same_as(&self, other: &FluidSynthConfig) -> (r: bool)
        ensures
            r == same_fluidsynth(*self, *other),
    {
        self.voice_limit == other.voice_limit && self.interpolation == other.interpolation
            && self.minimum_note_length == other.minimum_note_length && self.system_id
            == other.system_id && self.chorus_active == other.chorus_active && self.reverb_active
            == other.reverb_active && f64_bits_eq(self.overflow_age_bits, other.overflow_age_bits)
            && f64_bits_eq(self.overflow_percussion_bits, other.overflow_percussion_bits)
            && f64_bits_eq(self.overflow_released_bits, other.overflow_released_bits)
            && f64_bits_eq(self.overflow_sustained_bits, other.overflow_sustained_bits)
            && f64_bits_eq(self.overflow_volume_bits, other.overflow_volume_bits)
    }
}

impl BassMidiConfig {
    pub fn same_as(&self, other: &BassMidiConfig) -> (r: bool)
        ensures
            r == same_bassmidi(*self, *other),
    {
        self.voice_limit == other.voice_limit && f32_bits_eq(
            self.render_time_limit_bits,
            other.render_time_limit_bits,
        ) && self.interpolation == other.interpolation && self.multithreading
            == other.multithreading && self.disable_effects == other.disable_effects
            && self.fade_out_killing == other.fade_out_killing && self.follow_overlaps
            == other.follow_overlaps && self.sf_linear_attack_mod == other.sf_linear_attack_mod
            && self.sf_linear_decay_vol == other.sf_linear_decay_vol && self.sf_minfx
            == other.sf_minfx && self.sf_nofx == other.sf_nofx && self.sf_no_rampin
            == other.sf_no_rampin && self.sf_sb_limits == other.sf_sb_limits && self.sf_xg_drums
            == other.sf_xg_drums
    }
}

impl RendererConfig {
    pub fn same_as(&self, other: &RendererConfig) -> (r: bool)
        ensures
            r == same_renderer(*self, *other),
    {
        let fps = match (self.render_fps_bits, other.render_fps_bits) {
            (Some(x), Some(y)) => f64_bits_eq(x, y),
            (None, None) => true,
            _ => false,
        };
        let synth = match (&self.synth, &other.synth) {
            (SynthConfig::FluidSynth(x), SynthConfig::FluidSynth(y)) => x.same_as(y),
            (SynthConfig::BassMidi(x), SynthConfig::BassMidi(y)) => x.same_as(y),
            _ => false,
        };
        self.port_threads == other.port_threads && fps && f32_bits_eq(
            self.render_fps_variation_bits,
            other.render_fps_variation_bits,
        ) && synth
    }
}

/// MIDI event processing settings.
#[derive(Debug, Clone, PartialEq)]
pub struct EventProcessorConfig {
    pub bypass_ports: Vec<u8>,
    pub ignore_ports: Vec<u8>,
    pub bypass_channels: Vec<u8>,
    pub ignore_channels: Vec<u8>,
    pub fixed_velocity: u8,
    pub transpose: i8,
    /// Bit pattern of the velocity multiplier (`f32`).
    pub velocity_multiplier_bits: u32,
    pub velocity_threshold: u8,
    /// Bit pattern of the velocity curve exponent (`f32`).
    pub velocity_curve_bits: u32,
    pub key_range_low: u8,
    pub key_range_high: u8,
    pub ignore_program_change: bool,
    pub ignore_sysex: bool,
}

/// Two event-processor sections hold the same settings.
pub open spec fn same_event_processor(a: EventProcessorConfig, b: EventProcessorConfig) -> bool {
    &&& a.bypass_ports@ == b.bypass_ports@
    &&& a.ignore_ports@ == b.ignore_ports@
    &&& a.bypass_channels@ == b.bypass_channels@
    &&& a.ignore_channels@ == b.ignore_channels@
    &&& a.fixed_velocity == b.fixed_velocity
    &&& a.transpose == b.transpose
    &&& f32_eq(a.velocity_multiplier_bits, b.velocity_multiplier_bits)
    &&& a.velocity_threshold == b.velocity_threshold
    &&& f32_eq(a.velocity_curve_bits, b.velocity_curve_bits)
    &&& a.key_range_low == b.key_range_low
    &&& a.key_range_high == b.key_range_high
    &&& a.ignore_program_change == b.ignore_program_change
    &&& a.ignore_sysex == b.ignore_sysex
}

/// Equality of two byte lists by content.
pub fn bytes_eq(a: &Vec<u8>, b: &Vec<u8>) -> (r: bool)
    ensures
        r == (a@ == b@),
{
    if a.len() != b.len() {
        return false;
    }
    let mut i: usize = 0;
    while i < a.len()
        invariant
            a@.len() == b@.len(),
            0 <= i <= a@.len(),
            forall|j: int| 0 <= j < i ==> a@[j] == b@[j],
        decreases a@.len() - i,
    {
        if a[i] != b[i] {
            return false;
        }
        i = i + 1;
    }
    assert(a@ =~= b@);
    true
}

impl EventProcessorConfig {
    pub fn same_as(&self, other: &EventProcessorConfig) -> (r: bool)
        ensures
            r == same_event_processor(*self, *other),
    {
        bytes_eq(&self.bypass_ports, &other.bypass_ports) && bytes_eq(
            &self.ignore_ports,
            &other.ignore_ports,
        ) && bytes_eq(&self.bypass_channels, &other.bypass_channels) && bytes_eq(
            &self.ignore_channels,
            &other.ignore_channels,
        ) && self.fixed_velocity == other.fixed_velocity && self.transpose == other.transpose
            && f32_bits_eq(self.velocity_multiplier_bits, other.velocity_multiplier_bits)
            && self.velocity_threshold == other.velocity_threshold && f32_bits_eq(
            self.velocity_curve_bits,
            other.velocity_curve_bits,
        ) && self.key_range_low == other.key_range_low
            && self.key_range_high == other.key_range_high && self.ignore_program_change
            == other.ignore_program_change && self.ignore_sysex == other.ignore_sysex
    }
}

/// Two optional event-processor sections are the same (both absent, or both
/// present with the same settings).
pub open spec fn same_opt_event_processor(
    a: Option<EventProcessorConfig>,
    b: Option<EventProcessorConfig>,
) -> bool {
    match (a, b) {
        (Some(x), Some(y)) => same_event_processor(x, y),
        (None, None) => true,
        _ => false,
    }
}

pub fn opt_event_processor_eq(a: &Option<EventProcessorConfig>, b: &Option<EventProcessorConfig>) -> (r: bool)
    ensures
        r == same_opt_event_processor(*a, *b),
{
    match (a, b) {
        (Some(x), Some(y)) => x.same_as(y),
        (None, None) => true,
        _ => false,
    }
}

#[derive(Debug, Clone, Copy, PartialEq, Eq, Structural)]
pub struct AudioLimiterConfig {
    /// Bit patterns of the attack and release times in milliseconds (`f32`).
    pub attack_ms_bits: u32,
    pub release_ms_bits: u32,
}

impl AudioLimiterConfig {
    /// 10 ms attack, 100 ms release.
    pub open spec fn spec_default() -> AudioLimiterConfig {
        AudioLimiterConfig { attack_ms_bits: 0x41200000u32, release_ms_bits: 0x42c80000u32 }
    }

    pub fn default() -> (c: AudioLimiterConfig)
        ensures
            c == Self::spec_default(),
    {
        AudioLimiterConfig { attack_ms_bits: 0x41200000u32, release_ms_bits: 0x42c80000u32 }
    }
}

#[derive(Debug, Clone, Copy, PartialEq, Eq, Structural)]
pub struct PostProcessorConfig {
    /// Bit pattern of the output volume (`f32`).
    pub volume_bits: u32,
    pub limiter: Option<AudioLimiterConfig>,
}

impl PostProcessorConfig {
    /// Full volume (1.0), no limiter.
    pub open spec fn spec_default() -> PostProcessorConfig {
        PostProcessorConfig { volume_bits: 0x3f800000u32, limiter: None }
    }

    pub fn default() -> (c: PostProcessorConfig)
        ensures
            c == Self::spec_default(),
    {
        PostProcessorConfig { volume_bits: 0x3f800000u32, limiter: None }
    }
}

/// Two limiter sections hold the same settings.
pub open spec fn same_limiter(a: AudioLimiterConfig, b: AudioLimiterConfig) -> bool {
    f32_eq(a.attack_ms_bits, b.attack_ms_bits) && f32_eq(a.release_ms_bits, b.release_ms_bits)
}

/// Two post-processor sections hold the same settings.
pub open spec fn same_post_processor(a: PostProcessorConfig, b: PostProcessorConfig) -> bool {
    &&& f32_eq(a.volume_bits, b.volume_bits)
    &&& match (a.limiter, b.limiter) {
        (Some(x), Some(y)) => same_limiter(x, y),
        (None, None) => true,
        _ => false,
    }
}

/// Two optional post-processor sections are the same (both absent, or both
/// present with the same settings).
pub open spec fn same_opt_post_processor(
    a: Option<PostProcessorConfig>,
    b: Option<PostProcessorConfig>,
) -> bool {
    match (a, b) {
        (Some(x), Some(y)) => same_post_processor(x, y),
        (None, None) => true,
        _ => false,
    }
}

impl PostProcessorConfig {
    pub fn same_as(&self, other: &PostProcessorConfig) -> (r: bool)
        ensures
            r == same_post_processor(*self, *other),
    {
        let limiter = match (self.limiter, other.limiter) {
            (Some(x), Some(y)) => f32_bits_eq(x.attack_ms_bits, y.attack_ms_bits) && f32_bits_eq(
                x.release_ms_bits,
                y.release_ms_bits,
            ),
            (None, None) => true,
            _ => false,
        };
        f32_bits_eq(self.volume_bits, other.volume_bits) && limiter
    }
}

pub fn opt_post_processor_eq(a: &Option<PostProcessorConfig>, b: &Option<PostProcessorConfig>) -> (r: bool)
    ensures
        r == same_opt_post_processor(*a, *b),
{
    match (a, b) {
        (Some(x), Some(y)) => x.same_as(y),
        (None, None) => true,
        _ => false,
    }
}

} // verus!
