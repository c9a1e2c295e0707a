//! What the settings editor shows for each configuration component, and the
//! converter's own settings with the migration of their stored form.

use crate::output::{OutputFormat, OutputSettings, WavBitDepth, DEFAULT_BITRATE_KBPS};
use crate::system_cfg::{component_from_name, ConfigComponent};
use vstd::prelude::*;

verus! {

/// Which sections of a component configuration exist and are editable.
#[derive(Debug, Clone, Copy, PartialEq, Eq, Structural)]
pub struct ComponentProfile {
    pub kind: ConfigComponent,
    pub has_enabled: bool,
    pub has_sflist: bool,
    pub has_audio_params: bool,
    pub has_realtime: bool,
    pub has_renderer: bool,
    pub has_event_processor: bool,
    pub has_post_processor: bool,
    pub has_port_threads: bool,
}

/// The profile of each component. Every component has a renderer and both
/// processors; the converter has no on/off switch, SoundFont list or realtime
/// output; the virtual device has no on/off switch; KDMAPI has no per-port
/// threads.
pub open spec fn profile_of(kind: ConfigComponent) -> ComponentProfile {
    match kind {
        ConfigComponent::Converter => ComponentProfile {
            kind,
            has_enabled: false,
            has_sflist: false,
            has_audio_params: true,
            has_realtime: false,
            has_renderer: true,
            has_event_processor: true,
            has_post_processor: true,
            has_port_threads: true,
        },
        ConfigComponent::System => ComponentProfile {
            kind,
            has_enabled: false,
            has_sflist: true,
            has_audio_params: true,
            has_realtime: true,
            has_renderer: true,
            has_event_processor: true,
            has_post_processor: true,
            has_port_threads: true,
        },
        ConfigComponent::KDMAPI => ComponentProfile {
            kind,
            has_enabled: true,
            has_sflist: true,
            has_audio_params: true,
            has_realtime: true,
            has_renderer: true,
            has_event_processor: true,
            has_post_processor: true,
            has_port_threads: false,
        },
    }
}

impl ComponentProfile {
    pub fn for_kind(kind: ConfigComponent) -> (p: ComponentProfile)
        ensures
            p == profile_of(kind),
    {
        let base = ComponentProfile {
            kind,
            has_enabled: true,
            has_sflist: true,
            has_audio_params: false,
            has_realtime: false,
            has_renderer: true,
            has_event_processor: true,
            has_post_processor: true,
            has_port_threads: true,
        };
        match kind {
            ConfigComponent::Converter => ComponentProfile {
                has_enabled: false,
                has_sflist: false,
                has_audio_params: true,
                ..base
            },
            ConfigComponent::System => ComponentProfile {
                has_enabled: false,
                has_audio_params: true,
                has_realtime: true,
                ..base
            },
            ConfigComponent::KDMAPI => ComponentProfile {
                has_audio_params: true,
                has_realtime: true,
                has_port_threads: false,
                ..base
            },
        }
    }

    /// The profile of the component a configuration file name stands for.
    pub fn for_name(name: &str) -> (p: Option<ComponentProfile>)
        ensures
            p == match component_from_name(name@) {
                Some(kind) => Some(profile_of(kind)),
                None => None,
            },
    {
        match ConfigComponent::from_name(name) {
            Some(kind) => Some(Self::for_kind(kind)),
            None => None,
        }
    }

    pub fn has_converter_options(&self) -> (b: bool)
        ensures
            b == (self.kind == ConfigComponent::Converter),
    {
        self.kind == ConfigComponent::Converter
    }

    pub fn has_device_options(&self) -> (b: bool)
        ensures
            b == (self.kind == ConfigComponent::System),
    {
        self.kind == ConfigComponent::System
    }
}

/// The converter's own settings.
#[derive(Debug, Clone)]
pub struct ConverterCustom {
    pub multithreaded_export: bool,
    /// Worker threads for exporting; 0 lets the pool size itself.
    pub export_threads: usize,
    pub output_format: OutputFormat,
    pub wav_bit_depth: WavBitDepth,
    pub bitrate_kbps: u32,
    pub output_path: String,
}

impl ConverterCustom {
    /// Single-threaded WAV export in 32-bit float at the default bitrate, no
    /// output folder.
    pub fn default() -> (c: ConverterCustom)
        ensures
            !c.multithreaded_export,
            c.export_threads == 0,
            c.output_format == OutputFormat::Wav,
            c.wav_bit_depth == WavBitDepth::Float32,
            c.bitrate_kbps == DEFAULT_BITRATE_KBPS,
            c.output_path@ == Seq::<char>::empty(),
    {
        ConverterCustom {
            multithreaded_export: false,
            export_threads: 0,
            output_format: OutputFormat::default(),
            wav_bit_depth: WavBitDepth::default(),
            bitrate_kbps: DEFAULT_BITRATE_KBPS,
            output_path: String::new(),
        }
    }

    pub fn output_settings(&self) -> (s: OutputSettings)
        ensures
            s.format == self.output_format,
            s.wav_bit_depth == self.wav_bit_depth,
            s.bitrate_kbps == self.bitrate_kbps,
    {
        OutputSettings {
            format: self.output_format,
            wav_bit_depth: self.wav_bit_depth,
            bitrate_kbps: self.bitrate_kbps,
        }
    }

    /// The settings a stored payload stands for. Older files named the WAV
    /// sample format in the format itself (`WavF32`, `Wav24`, `Wav16`); such
    /// a name still selects its bit depth unless the payload names one
    /// explicitly. Missing values take their defaults.
    pub fn from_stored(stored: StoredConverterCustom) -> (c: ConverterCustom)
        ensures
            c@ == migrate(stored@),
    {
        let (output_format, legacy_depth) = stored.output_format.split();
        let wav_bit_depth = match stored.wav_bit_depth {
            Some(d) => d,
            None => match legacy_depth {
                Some(d) => d,
                None => WavBitDepth::default(),
            },
        };
        let bitrate_kbps = match stored.bitrate_kbps {
            Some(b) => b,
            None => DEFAULT_BITRATE_KBPS,
        };
        ConverterCustom {
            multithreaded_export: stored.multithreaded_export,
            export_threads: stored.export_threads,
            output_format,
            wav_bit_depth,
            bitrate_kbps,
            output_path: stored.output_path,
        }
    }
}

/// An output format as stored on disk, older combined WAV names included.
#[derive(Debug, Clone, Copy, PartialEq, Eq, Structural)]
pub enum StoredFormat {
    Wav,
    Flac,
    Mp3,
    Ogg,
    WavF32,
    Wav24,
    Wav16,
}

/// The format a stored name stands for, and the bit depth an older combined
/// name carried.
pub open spec fn stored_format_split(f: StoredFormat) -> (OutputFormat, Option<WavBitDepth>) {
    match f {
        StoredFormat::Wav => (OutputFormat::Wav, None),
        StoredFormat::Flac => (OutputFormat::Flac, None),
        StoredFormat::Mp3 => (OutputFormat::Mp3, None),
        StoredFormat::Ogg => (OutputFormat::Ogg, None),
        StoredFormat::WavF32 => (OutputFormat::Wav, Some(WavBitDepth::Float32)),
        StoredFormat::Wav24 => (OutputFormat::Wav, Some(WavBitDepth::Int24)),
        StoredFormat::Wav16 => (OutputFormat::Wav, Some(WavBitDepth::Int16)),
    }
}

/// The name a format is saved under.
pub open spec fn stored_name_of(f: OutputFormat) -> StoredFormat {
    match f {
        OutputFormat::Wav => StoredFormat::Wav,
        OutputFormat::Flac => StoredFormat::Flac,
        OutputFormat::Mp3 => StoredFormat::Mp3,
        OutputFormat::Ogg => StoredFormat::Ogg,
    }
}

impl StoredFormat {
    pub fn default() -> (f: StoredFormat)
        ensures
            f == StoredFormat::Wav,
    {
        StoredFormat::Wav
    }

    pub fn split(self) -> (r: (OutputFormat, Option<WavBitDepth>))
        ensures
            r == stored_format_split(self),
    {
        match self {
            StoredFormat::Wav => (OutputFormat::Wav, None),
            StoredFormat::Flac => (OutputFormat::Flac, None),
            StoredFormat::Mp3 => (OutputFormat::Mp3, None),
            StoredFormat::Ogg => (OutputFormat::Ogg, None),
            StoredFormat::WavF32 => (OutputFormat::Wav, Some(WavBitDepth::Float32)),
            StoredFormat::Wav24 => (OutputFormat::Wav, Some(WavBitDepth::Int24)),
            StoredFormat::Wav16 => (OutputFormat::Wav, Some(WavBitDepth::Int16)),
        }
    }
}

/// The converter settings as a stored payload holds them; every key may be
/// missing.
#[derive(Debug, Clone)]
pub struct StoredConverterCustom {
    pub multithreaded_export: bool,
    pub export_threads: usize,
    pub output_format: StoredFormat,
    pub wav_bit_depth: Option<WavBitDepth>,
    pub bitrate_kbps: Option<u32>,
    pub output_path: String,
}

impl StoredConverterCustom {
    /// What an empty payload reads as.
    pub fn default() -> (s: StoredConverterCustom)
        ensures
            !s.multithreaded_export,
            s.export_threads == 0,
            s.output_format == StoredFormat::Wav,
            s.wav_bit_depth is None,
            s.bitrate_kbps is None,
            s.output_path@ == Seq::<char>::empty(),
    {
        let d = ConverterCustom::default();
        StoredConverterCustom {
            multithreaded_export: d.multithreaded_export,
            export_threads: d.export_threads,
            output_format: StoredFormat::default(),
            wav_bit_depth: None,
            bitrate_kbps: None,
            output_path: d.output_path,
        }
    }

    /// The payload that saving `c` writes: every key, the format under its
    /// own name.
    pub fn saved(c: &ConverterCustom) -> (s: StoredConverterCustom)
        ensures
            s@ == saved_payload(c@),
    {
        let output_format = match c.output_format {
            OutputFormat::Wav => StoredFormat::Wav,
            OutputFormat::Flac => StoredFormat::Flac,
            OutputFormat::Mp3 => StoredFormat::Mp3,
            OutputFormat::Ogg => StoredFormat::Ogg,
        };
        StoredConverterCustom {
            multithreaded_export: c.multithreaded_export,
            export_threads: c.export_threads,
            output_format,
            wav_bit_depth: Some(c.wav_bit_depth),
            bitrate_kbps: Some(c.bitrate_kbps),
            output_path: c.output_path.clone(),
        }
    }
}

/// The values of converter settings.
pub struct ConverterView {
    pub multithreaded_export: bool,
    pub export_threads: usize,
    pub output_format: OutputFormat,
    pub wav_bit_depth: WavBitDepth,
    pub bitrate_kbps: u32,
    pub output_path: Seq<char>,
}

/// The values of a stored payload.
pub struct StoredView {
    pub multithreaded_export: bool,
    pub export_threads: usize,
    pub output_format: StoredFormat,
    pub wav_bit_depth: Option<WavBitDepth>,
    pub bitrate_kbps: Option<u32>,
    pub output_path: Seq<char>,
}

impl View for ConverterCustom {
    type V = ConverterView;

    open spec fn view(&self) -> ConverterView {
        ConverterView {
            multithreaded_export: self.multithreaded_export,
            export_threads: self.export_threads,
            output_format: self.output_format,
            wav_bit_depth: self.wav_bit_depth,
            bitrate_kbps: self.bitrate_kbps,
            output_path: self.output_path@,
        }
    }
}

impl View for StoredConverterCustom {
    type V = StoredView;

    open spec fn view(&self) -> StoredView {
        StoredView {
            multithreaded_export: self.multithreaded_export,
            export_threads: self.export_threads,
            output_format: self.output_format,
            wav_bit_depth: self.wav_bit_depth,
            bitrate_kbps: self.bitrate_kbps,
            output_path: self.output_path@,
        }
    }
}

/// The settings a stored payload stands for: an explicit bit depth wins over
/// the one an older combined format name carried; missing values take their
/// defaults.
pub open spec fn migrate(s: StoredView) -> ConverterView {
    let (format, legacy_depth) = stored_format_split(s.output_format);
    ConverterView {
        multithreaded_export: s.multithreaded_export,
        export_threads: s.export_threads,
        output_format: format,
        wav_bit_depth: match s.wav_bit_depth {
            Some(d) => d,
            None => match legacy_depth {
                Some(d) => d,
                None => WavBitDepth::Float32,
            },
        },
        bitrate_kbps: match s.bitrate_kbps {
            Some(b) => b,
            None => DEFAULT_BITRATE_KBPS,
        },
        output_path: s.output_path,
    }
}

/// The payload saving settings writes.
pub open spec fn saved_payload(c: ConverterView) -> StoredView {
    StoredView {
        multithreaded_export: c.multithreaded_export,
        export_threads: c.export_threads,
        output_format: stored_name_of(c.output_format),
        wav_bit_depth: Some(c.wav_bit_depth),
        bitrate_kbps: Some(c.bitrate_kbps),
        output_path: c.output_path,
    }
}

/// Saving converter settings and reading the payload back gives the same
/// settings.
pub proof fn law_saved_converter_roundtrip(c: ConverterView)
    ensures
        migrate(saved_payload(c)) == c,
{
}

/// A payload that names no format-specific values reads as the defaults.
pub proof fn law_empty_payload_is_default(s: StoredView)
    requires
        s.output_format == StoredFormat::Wav,
        s.wav_bit_depth is None,
        s.bitrate_kbps is None,
    ensures
        migrate(s).output_format == OutputFormat::Wav,
        migrate(s).wav_bit_depth == WavBitDepth::Float32,
        migrate(s).bitrate_kbps == DEFAULT_BITRATE_KBPS,
{
}

} // verus!
