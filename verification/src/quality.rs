//! Quality tier and bit-rate estimate, derived from what the container reports.

use vstd::prelude::*;

verus! {

/// Sample rates above this one count as high resolution.
pub const CD_SAMPLE_RATE: u32 = 44_100;

/// The smallest bit depth that can count as high resolution.
pub const CD_BIT_DEPTH: u8 = 16;

/// The smallest bit-rate estimate, in kbps, that is reported.
pub const MIN_BITRATE: u32 = 8;

/// The largest bit-rate estimate, in kbps, that is reported.
pub const MAX_BITRATE: u32 = 10_000;

/// The container format of a loaded file.
#[derive(Debug, Clone, Copy, PartialEq, Eq, Structural)]
pub enum ContainerKind {
    Aac,
    Aiff,
    Ape,
    Flac,
    Mpeg,
    Mp4,
    Mpc,
    Opus,
    Vorbis,
    Speex,
    Wav,
    WavPack,
    Other,
}

/// What the container reports of its audio stream.
#[derive(Debug, Clone, Copy, PartialEq, Eq, Structural)]
pub struct AudioProperties {
    pub sample_rate: Option<u32>,
    pub bit_depth: Option<u8>,
    pub channels: Option<u8>,
    pub audio_bitrate: Option<u32>,
    /// Playing time in nanoseconds; zero where it is unknown.
    pub duration_nanos: u128,
}

/// A coarse audio-quality tier.
#[derive(Debug, Clone, Copy, PartialEq, Eq, Structural)]
pub enum Quality {
    /// A lossy format.
    HQ,
    /// A lossless format at or below CD resolution.
    SQ,
    /// A lossless format above CD resolution.
    HiRes,
}

/// Whether a container stores audio without loss.
pub open spec fn spec_is_lossless(kind: ContainerKind) -> bool {
    kind == ContainerKind::Flac || kind == ContainerKind::Ape || kind == ContainerKind::Aiff
        || kind == ContainerKind::Wav || kind == ContainerKind::WavPack
}

/// The tier of a file: lossy files are `HQ`; lossless ones are `HiRes` when both
/// the sample rate and the bit depth are known, the rate lies above 44 100 Hz and
/// the depth is at least 16 bits, and `SQ` otherwise.
pub open spec fn spec_classify(
    lossless: bool,
    sample_rate: Option<u32>,
    bit_depth: Option<u8>,
) -> Quality {
    if !lossless {
        Quality::HQ
    } else if sample_rate is Some && bit_depth is Some && sample_rate->0 > CD_SAMPLE_RATE
        && bit_depth->0 >= CD_BIT_DEPTH {
        Quality::HiRes
    } else {
        Quality::SQ
    }
}

/// `size_bytes * 8 / (seconds * 1000)` rounded to the nearest integer, halves
/// upward, for a duration given in nanoseconds.
pub open spec fn spec_rounded_kbps(size_bytes: nat, duration_nanos: nat) -> nat
    recommends
        duration_nanos > 0,
{
    ((2 * (size_bytes * 8_000_000) + duration_nanos) / (2 * duration_nanos)) as nat
}

/// The bit rate in kbps: the reported one if there is one; else, for a known
/// duration, the rounded estimate where it lies within `[8, 10000]`.
pub open spec fn spec_bit_rate(
    reported: Option<u32>,
    size_bytes: nat,
    duration_nanos: nat,
) -> Option<u32> {
    if reported is Some {
        reported
    } else if duration_nanos == 0 {
        None
    } else {
        let estimate = spec_rounded_kbps(size_bytes, duration_nanos);
        if MIN_BITRATE <= estimate <= MAX_BITRATE {
            Some(estimate as u32)
        } else {
            None
        }
    }
}

#[verifier::when_used_as_spec(spec_is_lossless)]
pub fn is_lossless(kind: ContainerKind) -> (r: bool)
    ensures
        r == spec_is_lossless(kind),
{
    match kind {
        ContainerKind::Flac | ContainerKind::Ape | ContainerKind::Aiff | ContainerKind::Wav
        | ContainerKind::WavPack => true,
        _ => false,
    }
}

/// Classifies a file by its container and stream resolution.
pub fn classify_quality(lossless: bool, sample_rate: Option<u32>, bit_depth: Option<u8>) -> (q:
    Quality)
    ensures
        q == spec_classify(lossless, sample_rate, bit_depth),
        !lossless ==> q == Quality::HQ,
        q == Quality::HiRes ==> lossless && sample_rate is Some && bit_depth is Some,
{
    if !lossless {
        return Quality::HQ;
    }
    match (sample_rate, bit_depth) {
        (Some(rate), Some(depth)) => {
            if rate > CD_SAMPLE_RATE && depth >= CD_BIT_DEPTH {
                Quality::HiRes
            } else {
                Quality::SQ
            }
        },
        _ => Quality::SQ,
    }
}

impl Quality {
    /// The tier's name as a sequence of characters.
    pub open spec fn spec_name(self) -> Seq<char> {
        match self {
            Quality::HQ => "HQ"@,
            Quality::SQ => "SQ"@,
            Quality::HiRes => "HiRes"@,
        }
    }

    /// The tier's name: `HQ`, `SQ` or `HiRes`.
    pub fn name(self) -> (s: String)
        ensures
            s@ == self.spec_name(),
    {
        match self {
            Quality::HQ => "HQ".to_string(),
            Quality::SQ => "SQ".to_string(),
            Quality::HiRes => "HiRes".to_string(),
        }
    }
}

/// The bit rate to report for a file of `size_bytes` bytes.
pub fn estimate_bit_rate(reported: Option<u32>, size_bytes: u64, duration_nanos: u128) -> (r:
    Option<u32>)
    ensures
        r == spec_bit_rate(reported, size_bytes as nat, duration_nanos as nat),
        reported is Some ==> r == reported,
        reported is None && r is Some ==> MIN_BITRATE <= r->0 <= MAX_BITRATE,
{
    if let Some(rate) = reported {
        return Some(rate);
    }
    if duration_nanos == 0 {
        return None;
    }
    let bits: u128 = (size_bytes as u128) * 8_000_000u128;
    if duration_nanos > bits {
        proof {
            lemma_long_duration_rounds_low(bits as int, duration_nanos as int);
        }
        return None;
    }
    let numerator: u128 = 2 * bits + duration_nanos;
    let estimate: u128 = numerator / (2 * duration_nanos);
    if estimate >= MIN_BITRATE as u128 && estimate <= MAX_BITRATE as u128 {
        Some(estimate as u32)
    } else {
        None
    }
}

/// Where the duration in nanoseconds exceeds the size in bits times a
/// million, the rounded estimate is at most one.
proof fn lemma_long_duration_rounds_low(bits: int, nanos: int)
    requires
        0 <= bits < nanos,
    ensures
        (2 * bits + nanos) / (2 * nanos) < 2,
{
    assert((2 * bits + nanos) / (2 * nanos) < 2) by (nonlinear_arith)
        requires
            0 <= bits < nanos,
    ;
}

} // verus!
