//! Output file settings of the MIDI-to-audio converter.

use vstd::prelude::*;

verus! {

/// Container/codec of a rendered file.
#[derive(Debug, Clone, Copy, PartialEq, Eq, Structural)]
pub enum OutputFormat {
    Wav,
    Flac,
    Mp3,
    Ogg,
}

/// Sample format of a WAV file.
#[derive(Debug, Clone, Copy, PartialEq, Eq, Structural)]
pub enum WavBitDepth {
    Float32,
    Int24,
    Int16,
}

impl OutputFormat {
    pub fn default() -> (f: OutputFormat)
        ensures
            f == OutputFormat::Wav,
    {
        OutputFormat::Wav
    }
}

impl WavBitDepth {
    pub fn default() -> (d: WavBitDepth)
        ensures
            d == WavBitDepth::Float32,
    {
        WavBitDepth::Float32
    }
}

/// Number of selectable lossy bitrates.
pub const BITRATE_COUNT: usize = 8;

/// Selectable lossy bitrates in kbit/s, strictly increasing.
pub const BITRATES_KBPS: [u32; 8] = [64, 96, 128, 160, 192, 224, 256, 320];

/// Bitrate used when none is configured.
pub const DEFAULT_BITRATE_KBPS: u32 = 192;

/// The selectable bitrates.
pub open spec fn bitrates() -> Seq<u32> {
    seq![64u32, 96, 128, 160, 192, 224, 256, 320]
}

/// The bitrate at position `i` of the table.
pub fn bitrate_at(i: usize) -> (r: u32)
    requires
        i < BITRATE_COUNT,
    ensures
        r == bitrates()[i as int],
{
    assert(BITRATES_KBPS@ =~= bitrates());
    BITRATES_KBPS[i]
}

/// What the renderer needs to know about the file it writes.
#[derive(Debug, Clone, Copy, PartialEq, Eq, Structural)]
pub struct OutputSettings {
    pub format: OutputFormat,
    pub wav_bit_depth: WavBitDepth,
    pub bitrate_kbps: u32,
}

} // verus!
