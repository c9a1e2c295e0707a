use maestro::component::{
    ComponentProfile, ConverterCustom, StoredConverterCustom, StoredFormat,
};
use maestro::output::{OutputFormat, WavBitDepth, DEFAULT_BITRATE_KBPS};
use maestro::system_cfg::ConfigComponent;

fn payload(format: StoredFormat) -> StoredConverterCustom {
    let mut s = StoredConverterCustom::default();
    s.output_format = format;
    s
}

#[test]
fn an_empty_payload_falls_back_to_the_defaults() {
    let c = ConverterCustom::from_stored(StoredConverterCustom::default());
    assert_eq!(c.output_format, OutputFormat::Wav);
    assert_eq!(c.wav_bit_depth, WavBitDepth::Float32);
    assert_eq!(c.bitrate_kbps, DEFAULT_BITRATE_KBPS);
    assert_eq!(c.export_threads, 0);
}

#[test]
fn a_legacy_wav_format_keeps_the_bit_depth_it_named() {
    for (stored, expected) in [
        (StoredFormat::WavF32, WavBitDepth::Float32),
        (StoredFormat::Wav24, WavBitDepth::Int24),
        (StoredFormat::Wav16, WavBitDepth::Int16),
    ] {
        let c = ConverterCustom::from_stored(payload(stored));
        assert_eq!(c.output_format, OutputFormat::Wav);
        assert_eq!(c.wav_bit_depth, expected, "migrating {stored:?}");
    }
}

#[test]
fn an_explicit_bit_depth_wins_over_a_legacy_format_name() {
    let mut s = payload(StoredFormat::Wav16);
    s.wav_bit_depth = Some(WavBitDepth::Int24);
    let c = ConverterCustom::from_stored(s);
    assert_eq!(c.wav_bit_depth, WavBitDepth::Int24);
}

#[test]
fn the_other_formats_are_unchanged_by_the_migration() {
    for (stored, expected) in [
        (StoredFormat::Flac, OutputFormat::Flac),
        (StoredFormat::Mp3, OutputFormat::Mp3),
        (StoredFormat::Ogg, OutputFormat::Ogg),
    ] {
        assert_eq!(ConverterCustom::from_stored(payload(stored)).output_format, expected);
    }
}

#[test]
fn a_saved_payload_round_trips() {
    let c = ConverterCustom {
        multithreaded_export: true,
        export_threads: 6,
        output_format: OutputFormat::Mp3,
        wav_bit_depth: WavBitDepth::Int24,
        bitrate_kbps: 320,
        output_path: "/tmp/out".to_string(),
    };
    let back = ConverterCustom::from_stored(StoredConverterCustom::saved(&c));
    assert_eq!(back.multithreaded_export, c.multithreaded_export);
    assert_eq!(back.export_threads, c.export_threads);
    assert_eq!(back.output_format, c.output_format);
    assert_eq!(back.wav_bit_depth, c.wav_bit_depth);
    assert_eq!(back.bitrate_kbps, c.bitrate_kbps);
    assert_eq!(back.output_path, c.output_path);
}

#[test]
fn profiles_differ_per_component() {
    let conv = ComponentProfile::for_kind(ConfigComponent::Converter);
    assert!(!conv.has_enabled && !conv.has_sflist && !conv.has_realtime);
    assert!(conv.has_audio_params && conv.has_renderer && conv.has_port_threads);
    assert!(conv.has_converter_options() && !conv.has_device_options());

    let sys = ComponentProfile::for_kind(ConfigComponent::System);
    assert!(!sys.has_enabled && sys.has_sflist && sys.has_realtime);
    assert!(sys.has_device_options() && !sys.has_converter_options());

    let kdm = ComponentProfile::for_kind(ConfigComponent::KDMAPI);
    assert!(kdm.has_enabled && kdm.has_sflist && kdm.has_realtime && !kdm.has_port_threads);
}

#[test]
fn profiles_by_file_name() {
    assert_eq!(
        ComponentProfile::for_name("kdmapi"),
        Some(ComponentProfile::for_kind(ConfigComponent::KDMAPI))
    );
    assert_eq!(ComponentProfile::for_name("3rdparty/foo"), None);
}

#[test]
fn output_settings_copy_the_format_fields() {
    let mut c = ConverterCustom::default();
    c.output_format = OutputFormat::Flac;
    c.bitrate_kbps = 128;
    let s = c.output_settings();
    assert_eq!(s.format, OutputFormat::Flac);
    assert_eq!(s.wav_bit_depth, WavBitDepth::Float32);
    assert_eq!(s.bitrate_kbps, 128);
}
