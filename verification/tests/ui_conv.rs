use maestro::engine_cfg::{AudioParameters, ChannelCount};
use maestro::ui_conv::{audio_params_to_slint, slint_to_audio_params, SlintAudioParameters};
use maestro::app_state::AudioDeviceCache;
use maestro::engine_cfg::RealtimeConfig;
use maestro::ui_conv::{realtime_to_slint, slint_to_realtime};
use maestro::ui_conv::buffer_sizes;
use maestro::component::ConverterCustom;
use maestro::engine_cfg::{
    AudioLimiterConfig, BassMidiConfig, BassMidiThreading, EventProcessorConfig,
    FluidSynthConfig, PostProcessorConfig, SynthConfig,
};
use maestro::output::{OutputFormat, WavBitDepth, BITRATES_KBPS, DEFAULT_BITRATE_KBPS};
use maestro::system_cfg::SystemCustomSettings;
use maestro::ui_conv::{
    bitrate_from_index, bitrate_to_index, converter_custom_to_slint, evproc_to_slint,
    output_format_from_index, output_format_to_index, postproc_to_slint,
    slint_to_converter_custom, slint_to_evproc, slint_to_postproc, slint_to_synth,
    slint_to_system_custom, synth_to_slint, system_custom_to_slint, tab_from_key, tab_to_key,
    wav_bit_depth_from_index, wav_bit_depth_to_index, SynthKind, Tab,
};

#[test]
fn tab_keys_round_trip() {
    for tab in [Tab::Welcome, Tab::Soundfonts, Tab::Converter, Tab::Device, Tab::System] {
        assert_eq!(tab_from_key(tab_to_key(tab)), Some(tab));
    }
    assert_eq!(tab_to_key(Tab::Soundfonts), "soundfonts");
    assert_eq!(tab_from_key("Device"), None);
    assert_eq!(tab_from_key(""), None);
}

#[test]
fn format_indices() {
    assert_eq!(output_format_to_index(OutputFormat::Ogg), 3);
    assert_eq!(output_format_from_index(2), OutputFormat::Mp3);
    assert_eq!(output_format_from_index(-1), OutputFormat::Wav);
    assert_eq!(output_format_from_index(9), OutputFormat::Wav);
    assert_eq!(wav_bit_depth_to_index(WavBitDepth::Int16), 2);
    assert_eq!(wav_bit_depth_from_index(1), WavBitDepth::Int24);
    assert_eq!(wav_bit_depth_from_index(7), WavBitDepth::Float32);
}

#[test]
fn bitrates_pick_the_nearest_entry() {
    assert_eq!(bitrate_to_index(320), 7);
    assert_eq!(bitrate_to_index(64), 0);
    assert_eq!(bitrate_to_index(0), 0);
    assert_eq!(bitrate_to_index(1000), 7);
    // 112 is as far from 96 as from 128: the lower entry wins.
    assert_eq!(bitrate_to_index(112), 1);
    assert_eq!(bitrate_to_index(130), 2);
    for (i, rate) in BITRATES_KBPS.iter().enumerate() {
        assert_eq!(bitrate_to_index(*rate), i as i32);
        assert_eq!(bitrate_from_index(i as i32), *rate);
    }
    assert_eq!(bitrate_from_index(-1), DEFAULT_BITRATE_KBPS);
    assert_eq!(bitrate_from_index(8), DEFAULT_BITRATE_KBPS);
}

#[test]
fn fluidsynth_settings_survive_the_editor() {
    let mut c = FluidSynthConfig::default();
    c.voice_limit = 512;
    c.interpolation = 7;
    c.chorus_active = false;
    let synth = SynthConfig::FluidSynth(c);
    let sl = synth_to_slint(&synth);
    assert_eq!(sl.kind, SynthKind::Fluidsynth);
    assert_eq!(sl.fluid_voice_limit, 512);
    // BASSMIDI fields keep their defaults.
    assert_eq!(sl.bass_voice_limit, 1000);
    assert_eq!(sl.bass_interpolation, 1);
    assert_eq!(slint_to_synth(&sl), synth);
}

#[test]
fn bassmidi_settings_survive_the_editor() {
    let mut c = BassMidiConfig::default();
    c.interpolation = 2;
    c.multithreading = Some(BassMidiThreading { thread_count: Some(4), keyboard_divisions: 8 });
    c.sf_xg_drums = true;
    let synth = SynthConfig::BassMidi(c);
    let sl = synth_to_slint(&synth);
    assert_eq!(sl.bass_interpolation, 3);
    assert_eq!(sl.bass_thread_count, 4);
    assert_eq!(sl.bass_keyboard_divisions, 8);
    assert_eq!(slint_to_synth(&sl), synth);
}

#[test]
fn editor_values_are_normalised_on_save() {
    let mut sl = synth_to_slint(&SynthConfig::BassMidi(BassMidiConfig::default()));
    sl.bass_voice_limit = -5;
    sl.bass_interpolation = 40;
    sl.bass_multithreading = true;
    sl.bass_thread_count = -3;
    sl.bass_keyboard_divisions = 1000;
    match slint_to_synth(&sl) {
        SynthConfig::BassMidi(c) => {
            assert_eq!(c.voice_limit, 1);
            assert_eq!(c.interpolation, 0);
            assert_eq!(
                c.multithreading,
                Some(BassMidiThreading { thread_count: None, keyboard_divisions: 255 })
            );
        }
        other => panic!("unexpected {other:?}"),
    }
    let mut fl = synth_to_slint(&SynthConfig::FluidSynth(FluidSynthConfig::default()));
    fl.fluid_interpolation = 3;
    fl.fluid_min_note_length = -1;
    match slint_to_synth(&fl) {
        SynthConfig::FluidSynth(c) => {
            assert_eq!(c.interpolation, 4);
            assert_eq!(c.minimum_note_length, 0);
        }
        other => panic!("unexpected {other:?}"),
    }
}

fn evproc() -> EventProcessorConfig {
    EventProcessorConfig {
        bypass_ports: vec![3, 1, 3, 40],
        ignore_ports: vec![],
        bypass_channels: vec![9],
        ignore_channels: vec![0, 15],
        fixed_velocity: 0,
        transpose: -12,
        velocity_multiplier_bits: 0x3f800000,
        velocity_threshold: 5,
        velocity_curve_bits: 0x3f800000,
        key_range_low: 0,
        key_range_high: 127,
        ignore_program_change: true,
        ignore_sysex: false,
    }
}

#[test]
fn slot_lists_become_flags_and_back() {
    let sl = evproc_to_slint(&evproc());
    assert_eq!(sl.bypass_ports.len(), 16);
    assert!(sl.bypass_ports[1] && sl.bypass_ports[3]);
    assert_eq!(sl.bypass_ports.iter().filter(|f| **f).count(), 2);
    assert_eq!(sl.transpose, -12);
    let back = slint_to_evproc(&sl);
    // Sorted, without repeats, only real slots.
    assert_eq!(back.bypass_ports, vec![1, 3]);
    assert_eq!(back.ignore_channels, vec![0, 15]);
    assert_eq!(back.bypass_channels, vec![9]);
    assert!(back.ignore_ports.is_empty());
    assert_eq!(back.transpose, -12);
    assert!(back.ignore_program_change);
}

#[test]
fn editor_integers_are_clamped() {
    let mut sl = evproc_to_slint(&evproc());
    sl.fixed_velocity = 300;
    sl.transpose = -500;
    sl.velocity_threshold = -4;
    sl.key_range_low = -1;
    sl.key_range_high = 128;
    let e = slint_to_evproc(&sl);
    assert_eq!(e.fixed_velocity, 127);
    assert_eq!(e.transpose, -127);
    assert_eq!(e.velocity_threshold, 0);
    assert_eq!(e.key_range_low, 0);
    assert_eq!(e.key_range_high, 127);
}

#[test]
fn a_negative_or_nan_velocity_curve_becomes_zero() {
    let mut sl = evproc_to_slint(&evproc());
    sl.velocity_curve_bits = (-2.5f32).to_bits();
    assert_eq!(slint_to_evproc(&sl).velocity_curve_bits, 0.0f32.to_bits());
    sl.velocity_curve_bits = f32::NAN.to_bits();
    assert_eq!(slint_to_evproc(&sl).velocity_curve_bits, 0.0f32.to_bits());
    sl.velocity_curve_bits = 1.5f32.to_bits();
    assert_eq!(slint_to_evproc(&sl).velocity_curve_bits, 1.5f32.to_bits());
    sl.velocity_curve_bits = f32::INFINITY.to_bits();
    assert_eq!(slint_to_evproc(&sl).velocity_curve_bits, f32::INFINITY.to_bits());
    assert_eq!(f32::from_bits(sl.velocity_curve_bits).max(0.0), f32::INFINITY);
    assert_eq!((-2.5f32).max(0.0).to_bits(), 0.0f32.to_bits());
}

#[test]
fn post_processing_round_trips() {
    let none = PostProcessorConfig::default();
    let sl = postproc_to_slint(&none);
    assert!(!sl.has_limiter);
    assert_eq!(sl.limiter_attack_ms_bits, AudioLimiterConfig::default().attack_ms_bits);
    assert_eq!(slint_to_postproc(&sl), none);
    let with = PostProcessorConfig {
        volume_bits: 0.5f32.to_bits(),
        limiter: Some(AudioLimiterConfig { attack_ms_bits: 1, release_ms_bits: 2 }),
    };
    assert_eq!(slint_to_postproc(&postproc_to_slint(&with)), with);
}

#[test]
fn converter_settings_round_trip() {
    let c = ConverterCustom {
        multithreaded_export: true,
        export_threads: 6,
        output_format: OutputFormat::Flac,
        wav_bit_depth: WavBitDepth::Int16,
        bitrate_kbps: 256,
        output_path: "/music/out".to_string(),
    };
    let sl = converter_custom_to_slint(&c);
    assert_eq!(sl.bitrate_index, 6);
    let back = slint_to_converter_custom(&sl);
    assert_eq!(back.export_threads, 6);
    assert_eq!(back.output_format, OutputFormat::Flac);
    assert_eq!(back.wav_bit_depth, WavBitDepth::Int16);
    assert_eq!(back.bitrate_kbps, 256);
    assert_eq!(back.output_path, "/music/out");
    let mut neg = sl.clone();
    neg.export_threads = -2;
    assert_eq!(slint_to_converter_custom(&neg).export_threads, 0);
}

#[test]
fn device_settings_round_trip_and_clamp() {
    let s = SystemCustomSettings {
        device_name: "Maestro".to_string(),
        num_ports: 16,
        midi2_enabled: true,
        idle_timeout_minutes: 30,
    };
    let sl = system_custom_to_slint(&s);
    assert_eq!(sl.num_ports, 16);
    let back = slint_to_system_custom(&sl);
    assert_eq!(back, s);
    let mut zero = sl.clone();
    zero.num_ports = 0;
    zero.idle_timeout_minutes = -7;
    let z = slint_to_system_custom(&zero);
    assert_eq!(z.num_ports, 1);
    assert_eq!(z.idle_timeout_minutes, 0);
}

#[test]
fn single_flags_toggle_in_order() {
    assert_eq!(maestro::ui_conv::set_flag(&vec![9, 2], 5, true), vec![2, 5, 9]);
    assert_eq!(maestro::ui_conv::set_flag(&vec![9, 5, 2, 5], 5, false), vec![2, 9]);
    assert_eq!(maestro::ui_conv::set_flag(&vec![9, 5, 2], 5, true), vec![2, 5, 9]);
    assert_eq!(maestro::ui_conv::set_flag(&vec![3, 1], -1, true), vec![3, 1]);
    assert_eq!(maestro::ui_conv::set_flag(&vec![3, 1], 256, true), vec![3, 1]);
}

#[test]
fn audio_formats_round_trip() {
    let a = AudioParameters { channels: ChannelCount::Mono, sample_rate: 44100 };
    let sl = audio_params_to_slint(&a);
    assert_eq!((sl.channels, sl.sample_rate), (1, 44100));
    assert_eq!(slint_to_audio_params(&sl), a);
    let odd = slint_to_audio_params(&SlintAudioParameters { channels: 6, sample_rate: -3 });
    assert_eq!(odd, AudioParameters { channels: ChannelCount::Stereo, sample_rate: 1 });
}

#[test]
fn realtime_settings_use_list_indices() {
    let mut audio = AudioDeviceCache::empty();
    audio.refresh(
        vec![("alsa".to_string(), "ALSA".to_string())],
        vec![("hw:0".to_string(), "Card".to_string()), ("hw:1".to_string(), "USB".to_string())],
        None,
    );
    let mut rt = RealtimeConfig::default();
    rt.output_device = Some("hw:1".to_string());
    rt.buffer_size = Some(256);
    let sl = realtime_to_slint(&rt, &audio);
    assert_eq!(sl.audio_host_index, 0);
    assert_eq!(sl.output_device_index, 2);
    assert_eq!(sl.max_nps, 100000);
    assert!(!sl.has_max_nps);
    assert_eq!(sl.buffer_size, 256);
    let back = slint_to_realtime(&sl, &audio);
    assert_eq!(back, rt);
    let mut off = sl;
    off.has_buffer_size = true;
    off.buffer_size = 0;
    off.has_max_nps = true;
    off.max_nps = -5;
    let r = slint_to_realtime(&off, &audio);
    assert_eq!(r.buffer_size, None);
    assert_eq!(r.max_nps, Some(0));
}

#[test]
fn buffer_size_choices() {
    assert_eq!(
        buffer_sizes(None),
        vec![32, 64, 128, 256, 512, 1024, 2048, 4096, 8192, 16384]
    );
    assert_eq!(buffer_sizes(Some((100, 1000))), vec![128, 256, 512]);
    assert_eq!(buffer_sizes(Some((1, 40))), vec![16, 32]);
    assert_eq!(buffer_sizes(Some((300, 500))), vec![300, 500]);
    assert_eq!(buffer_sizes(Some((300, 300))), vec![300]);
    // An inverted or empty range falls back to the defaults.
    assert_eq!(buffer_sizes(Some((500, 100))), buffer_sizes(None));
    assert_eq!(buffer_sizes(Some((0, 0))), buffer_sizes(None));
}

#[test]
fn a_negative_zero_velocity_curve_round_trips_as_zero() {
    let mut e = evproc();
    e.bypass_ports = vec![1, 3];
    e.velocity_curve_bits = (-0.0f32).to_bits();
    let back = slint_to_evproc(&evproc_to_slint(&e));
    assert_eq!(f32::from_bits(back.velocity_curve_bits), f32::from_bits(e.velocity_curve_bits));
    assert_eq!(back.bypass_ports, e.bypass_ports);
}
