//! Capture: the stream format to ask a device for, and the bytes that its
//! samples become.
//!
//! The receiver expects signed 16-bit samples, little-endian, in stereo at
//! 44100 Hz. Whatever the device delivers is brought into that form.

use vstd::prelude::*;
use vstd::string::StringExecFns;

verus! {

/// The sample rate that the receiver expects, in Hz.
pub const TARGET_SAMPLE_RATE: u32 = 44100;

/// The size of the capture buffer, in frames. A small buffer makes the
/// device deliver often.
pub const CAPTURE_BUFFER_FRAMES: u32 = 512;

/// The form of one sample as a device delivers it.
#[derive(Debug, Clone, Copy, PartialEq, Eq, Structural)]
pub enum SampleFormat {
    I8,
    I16,
    I32,
    I64,
    U8,
    U16,
    U32,
    U64,
    F32,
    F64,
}

impl SampleFormat {
    /// The name of the format, as diagnostics print it.
    pub open spec fn label_text(&self) -> Seq<char> {
        match self {
            SampleFormat::I8 => "I8"@,
            SampleFormat::I16 => "I16"@,
            SampleFormat::I32 => "I32"@,
            SampleFormat::I64 => "I64"@,
            SampleFormat::U8 => "U8"@,
            SampleFormat::U16 => "U16"@,
            SampleFormat::U32 => "U32"@,
            SampleFormat::U64 => "U64"@,
            SampleFormat::F32 => "F32"@,
            SampleFormat::F64 => "F64"@,
        }
    }

    /// Whether samples of this format can be brought into the form of the
    /// stream.
    pub open spec fn is_supported(&self) -> bool {
        matches!(self, SampleFormat::F32 | SampleFormat::I16 | SampleFormat::U16 | SampleFormat::U8)
    }

    /// The name of the format, as diagnostics print it.
    pub fn label(&self) -> (name: &'static str)
        ensures
            name@ == self.label_text(),
    {
        match self {
            SampleFormat::I8 => "I8",
            SampleFormat::I16 => "I16",
            SampleFormat::I32 => "I32",
            SampleFormat::I64 => "I64",
            SampleFormat::U8 => "U8",
            SampleFormat::U16 => "U16",
            SampleFormat::U32 => "U32",
            SampleFormat::U64 => "U64",
            SampleFormat::F32 => "F32",
            SampleFormat::F64 => "F64",
        }
    }
}

/// A range of stream configurations that a device supports.
#[derive(Debug, Clone, Copy, PartialEq, Eq, Structural)]
pub struct ConfigRange {
    pub channels: u16,
    pub min_sample_rate: u32,
    pub max_sample_rate: u32,
    pub sample_format: SampleFormat,
}

/// The stream configuration that a capture asks for.
#[derive(Debug, Clone, Copy, PartialEq, Eq, Structural)]
pub struct CaptureConfig {
    pub channels: u16,
    pub sample_rate: u32,
    pub buffer_frames: u32,
    pub sample_format: SampleFormat,
}

impl ConfigRange {
    /// Whether the range is in stereo.
    pub open spec fn is_stereo(&self) -> bool {
        self.channels == 2
    }

    /// Whether the range holds the rate that the receiver expects.
    pub open spec fn holds_target_rate(&self) -> bool {
        self.min_sample_rate <= TARGET_SAMPLE_RATE <= self.max_sample_rate
    }

    /// Whether the range is what the receiver expects: stereo at its rate.
    pub open spec fn is_preferred(&self) -> bool {
        self.is_stereo() && self.holds_target_rate()
    }

    /// The range of one configuration: that of a device's default.
    pub fn from_default(channels: u16, sample_rate: u32, sample_format: SampleFormat) -> (range:
        ConfigRange)
        ensures
            range == (ConfigRange {
                channels,
                min_sample_rate: sample_rate,
                max_sample_rate: sample_rate,
                sample_format,
            }),
    {
        ConfigRange {
            channels,
            min_sample_rate: sample_rate,
            max_sample_rate: sample_rate,
            sample_format,
        }
    }
}

/// Whether `found` is the first of `ranges` that is in stereo and, where
/// `at_target_rate` asks for it, holds the rate of the receiver.
pub open spec fn is_first_choice(
    ranges: Seq<ConfigRange>,
    at_target_rate: bool,
    found: Option<ConfigRange>,
) -> bool {
    let wanted = |range: ConfigRange|
        range.is_stereo() && (at_target_rate ==> range.holds_target_rate());
    match found {
        Some(range) => exists|at: int|
            {
                &&& 0 <= at < ranges.len()
                &&& #[trigger] ranges[at] == range
                &&& wanted(range)
                &&& forall|j: int| 0 <= j < at ==> !wanted(#[trigger] ranges[j])
            },
        None => forall|j: int| 0 <= j < ranges.len() ==> !wanted(#[trigger] ranges[j]),
    }
}

fn first_choice(ranges: &Vec<ConfigRange>, at_target_rate: bool) -> (found: Option<ConfigRange>)
    ensures
        is_first_choice(ranges@, at_target_rate, found),
{
    let mut i: usize = 0;
    while i < ranges.len()
        invariant
            i <= ranges.len(),
            forall|j: int|
                0 <= j < i ==> !((#[trigger] ranges@[j]).is_stereo() && (at_target_rate
                    ==> ranges@[j].holds_target_rate())),
        decreases ranges.len() - i,
    {
        let range = ranges[i];
        if range.channels == 2 && (!at_target_rate || (range.min_sample_rate <= TARGET_SAMPLE_RATE
            && range.max_sample_rate >= TARGET_SAMPLE_RATE)) {
            return Some(range);
        }
        i = i + 1;
    }
    None
}

/// The first of the supported ranges that is in stereo and holds the rate
/// of the receiver.
pub fn preferred_config(ranges: &Vec<ConfigRange>) -> (found: Option<ConfigRange>)
    ensures
        is_first_choice(ranges@, true, found),
{
    first_choice(ranges, true)
}

/// The first of the supported ranges that is in stereo, at whatever rate.
pub fn stereo_config(ranges: &Vec<ConfigRange>) -> (found: Option<ConfigRange>)
    ensures
        is_first_choice(ranges@, false, found),
{
    first_choice(ranges, false)
}

/// The rate to capture at within a range: that of the receiver where the
/// range holds it, the highest of the range otherwise.
pub open spec fn capture_rate(range: ConfigRange) -> u32 {
    if range.holds_target_rate() {
        TARGET_SAMPLE_RATE
    } else {
        range.max_sample_rate
    }
}

/// The configuration to capture with, chosen within `range`: its channels
/// and format, the rate of the receiver where the range holds it and the
/// highest of the range otherwise, and a buffer of `CAPTURE_BUFFER_FRAMES`.
/// A format that cannot be brought into the form of the stream is an error
/// that names it.
pub fn capture_config(range: ConfigRange) -> (config: Result<CaptureConfig, String>)
    ensures
        range.sample_format.is_supported() ==> config == Ok::<CaptureConfig, String>(
            CaptureConfig {
                channels: range.channels,
                sample_rate: capture_rate(range),
                buffer_frames: CAPTURE_BUFFER_FRAMES,
                sample_format: range.sample_format,
            },
        ),
        !range.sample_format.is_supported() ==> config.is_err() && config.unwrap_err()@
            == "Unsupported sample format: "@ + range.sample_format.label_text(),
{
    let sample_rate = if range.min_sample_rate <= TARGET_SAMPLE_RATE && range.max_sample_rate
        >= TARGET_SAMPLE_RATE {
        TARGET_SAMPLE_RATE
    } else {
        range.max_sample_rate
    };
    match range.sample_format {
        SampleFormat::F32 | SampleFormat::I16 | SampleFormat::U16 | SampleFormat::U8 => Ok(
            CaptureConfig {
                channels: range.channels,
                sample_rate,
                buffer_frames: CAPTURE_BUFFER_FRAMES,
                sample_format: range.sample_format,
            },
        ),
        _ => Err(
            String::from_str("Unsupported sample format: ").concat(range.sample_format.label()),
        ),
    }
}

/// Whether a configuration is what the receiver expects. Where it is not,
/// the stream still flows, at the wrong pitch or with the wrong channels.
pub fn meets_expectations(config: &CaptureConfig) -> (meets: bool)
    ensures
        meets == (config.sample_rate == TARGET_SAMPLE_RATE && config.channels == 2),
{
    config.sample_rate == TARGET_SAMPLE_RATE && config.channels == 2
}

/// A signed 16-bit sample as the number that its two bytes write.
pub open spec fn as_unsigned(sample: i16) -> int {
    if sample >= 0 {
        sample as int
    } else {
        sample + 65536
    }
}

/// The two bytes of a sample, low byte first.
pub open spec fn sample_bytes(sample: i16) -> Seq<u8> {
    seq![(as_unsigned(sample) % 256) as u8, (as_unsigned(sample) / 256) as u8]
}

/// The samples of a stream in stereo: each sample of a mono stream twice,
/// any other stream as it is.
pub open spec fn in_stereo(samples: Seq<i16>, channels: u16) -> Seq<i16> {
    if channels == 1 {
        Seq::new(2 * samples.len(), |k: int| samples[k / 2])
    } else {
        samples
    }
}

/// The bytes of a run of samples: two for each, low byte first.
pub open spec fn pcm_bytes(samples: Seq<i16>) -> Seq<u8> {
    Seq::new(2 * samples.len(), |k: int| sample_bytes(samples[k / 2])[k % 2])
}

/// The signed sample for an unsigned 16-bit one, whose origin is 32768.
pub open spec fn from_u16(sample: u16) -> i16 {
    (sample - 32768) as i16
}

/// The signed sample for an unsigned 8-bit one, whose origin is 128: the
/// distance from the origin, scaled to 16 bits.
pub open spec fn from_u8(sample: u8) -> i16 {
    ((sample - 128) * 256) as i16
}

fn push_sample(bytes: &mut Vec<u8>, sample: i16)
    ensures
        final(bytes)@ == old(bytes)@ + sample_bytes(sample),
{
    let unsigned: u32 = if sample >= 0 {
        sample as u32
    } else {
        (sample as i32 + 65536) as u32
    };
    bytes.push((unsigned % 256) as u8);
    bytes.push((unsigned / 256) as u8);
}

fn push_frames(bytes: &mut Vec<u8>, sample: i16, channels: u16)
    ensures
        final(bytes)@ == old(bytes)@ + pcm_bytes(in_stereo(seq![sample], channels)),
{
    push_sample(bytes, sample);
    if channels == 1 {
        push_sample(bytes, sample);
        assert(pcm_bytes(in_stereo(seq![sample], channels)) =~= sample_bytes(sample)
            + sample_bytes(sample));
    } else {
    }
}

/// The bytes of a stream grow sample by sample.
proof fn lemma_pcm_push(samples: Seq<i16>, sample: i16, channels: u16)
    ensures
        pcm_bytes(in_stereo(samples.push(sample), channels)) == pcm_bytes(
            in_stereo(samples, channels),
        ) + pcm_bytes(in_stereo(seq![sample], channels)),
{
    let whole = pcm_bytes(in_stereo(samples.push(sample), channels));
    let parts = pcm_bytes(in_stereo(samples, channels)) + pcm_bytes(
        in_stereo(seq![sample], channels),
    );
    assert(whole =~= parts);
}

/// Brings signed 16-bit samples into the form of the stream: in stereo,
/// two bytes each, low byte first.
pub fn sample_to_bytes_i16(samples: &[i16], channels: u16) -> (bytes: Vec<u8>)
    ensures
        bytes@ == pcm_bytes(in_stereo(samples@, channels)),
{
    let mut bytes: Vec<u8> = Vec::new();
    let mut i: usize = 0;
    while i < samples.len()
        invariant
            i <= samples.len(),
            bytes@ == pcm_bytes(in_stereo(samples@.take(i as int), channels)),
        decreases samples.len() - i,
    {
        proof {
            lemma_pcm_push(samples@.take(i as int), samples@[i as int], channels);
        }
        push_frames(&mut bytes, samples[i], channels);
        i = i + 1;
    }
    bytes
}

/// The signed samples for unsigned 16-bit ones.
pub open spec fn all_from_u16(samples: Seq<u16>) -> Seq<i16> {
    Seq::new(samples.len(), |k: int| from_u16(samples[k]))
}

/// The signed samples for unsigned 8-bit ones.
pub open spec fn all_from_u8(samples: Seq<u8>) -> Seq<i16> {
    Seq::new(samples.len(), |k: int| from_u8(samples[k]))
}

/// Brings unsigned 16-bit samples into the form of the stream: moved to
/// the signed origin, in stereo, two bytes each, low byte first.
pub fn sample_to_bytes_u16(samples: &[u16], channels: u16) -> (bytes: Vec<u8>)
    ensures
        bytes@ == pcm_bytes(in_stereo(all_from_u16(samples@), channels)),
{
    let mut bytes: Vec<u8> = Vec::new();
    let mut i: usize = 0;
    while i < samples.len()
        invariant
            i <= samples.len(),
            bytes@ == pcm_bytes(in_stereo(all_from_u16(samples@.take(i as int)), channels)),
        decreases samples.len() - i,
    {
        let signed: i16 = (samples[i] as i32 - 32768) as i16;
        proof {
            lemma_pcm_push(all_from_u16(samples@.take(i as int)), signed, channels);
            assert(all_from_u16(samples@.take(i as int)).push(signed) =~= all_from_u16(
                samples@.take(i + 1),
            ));
        }
        push_frames(&mut bytes, signed, channels);
        i = i + 1;
    }
    bytes
}

/// Brings unsigned 8-bit samples into the form of the stream: moved to the
/// signed origin and scaled to 16 bits, in stereo, two bytes each, low byte
/// first.
pub fn sample_to_bytes_u8(samples: &[u8], channels: u16) -> (bytes: Vec<u8>)
    ensures
        bytes@ == pcm_bytes(in_stereo(all_from_u8(samples@), channels)),
{
    let mut bytes: Vec<u8> = Vec::new();
    let mut i: usize = 0;
    while i < samples.len()
        invariant
            i <= samples.len(),
            bytes@ == pcm_bytes(in_stereo(all_from_u8(samples@.take(i as int)), channels)),
        decreases samples.len() - i,
    {
        let signed: i16 = ((samples[i] as i32 - 128) * 256) as i16;
        proof {
            lemma_pcm_push(all_from_u8(samples@.take(i as int)), signed, channels);
            assert(all_from_u8(samples@.take(i as int)).push(signed) =~= all_from_u8(
                samples@.take(i + 1),
            ));
        }
        push_frames(&mut bytes, signed, channels);
        i = i + 1;
    }
    bytes
}

} // verus!
