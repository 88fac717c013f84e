//! PCM format descriptors and their conversion to and from the
//! platform's native wave-format descriptor.
//!
//! The platform descriptor (`WaveFormatEx`) is modelled here as a plain
//! struct holding exactly the fields the engine reads and writes; the
//! operating-system boundary copies the raw descriptor's fields into it
//! and out of it one for one.

use vstd::prelude::*;

verus! {

/// Format tag value of integer PCM data in a wave-format descriptor.
pub const WAVE_FORMAT_PCM: u16 = 1;

/// Format tag value of 32-bit floating point PCM data.
pub const WAVE_FORMAT_IEEE_FLOAT: u16 = 3;

/// Format tag value marking an extensible descriptor, whose real
/// encoding is carried in the trailing sub-format identifier.
pub const WAVE_FORMAT_EXTENSIBLE: u16 = 0xFFFE;

/// Byte count of the extension block that an extensible descriptor
/// must announce in its `cb_size` field.
pub const WAVE_FORMAT_EXTENSIBLE_CB_SIZE: u16 = 22;

/// A 128-bit platform interface/sub-format identifier, held as plain
/// values.
#[derive(Clone, Copy, Debug)]
pub struct Guid {
    pub data1: u32,
    pub data2: u16,
    pub data3: u16,
    pub data4: [u8; 8],
}

impl Guid {
    pub open spec fn spec_eq(self, other: Guid) -> bool {
        self.data1 == other.data1 && self.data2 == other.data2 && self.data3 == other.data3
            && self.data4@ =~= other.data4@
    }
}

/// The sub-format identifier of extensible descriptors carrying
/// integer PCM data.
pub fn ksdataformat_subtype_pcm() -> (g: Guid)
    ensures
        g == spec_subtype_pcm(),
{
    Guid { data1: 1, data2: 0, data3: 0x10, data4: [0x80, 0x00, 0x00, 0xAA, 0x00, 0x38, 0x9B, 0x71] }
}

/// The sub-format identifier of extensible descriptors carrying
/// 32-bit floating point PCM data.
pub fn ksdataformat_subtype_ieee_float() -> (g: Guid)
    ensures
        g == spec_subtype_ieee_float(),
{
    Guid { data1: 3, data2: 0, data3: 0x10, data4: [0x80, 0x00, 0x00, 0xAA, 0x00, 0x38, 0x9B, 0x71] }
}

pub open spec fn spec_subtype_pcm() -> Guid {
    Guid { data1: 1, data2: 0, data3: 0x10, data4: [0x80, 0x00, 0x00, 0xAA, 0x00, 0x38, 0x9B, 0x71] }
}

pub open spec fn spec_subtype_ieee_float() -> Guid {
    Guid { data1: 3, data2: 0, data3: 0x10, data4: [0x80, 0x00, 0x00, 0xAA, 0x00, 0x38, 0x9B, 0x71] }
}

/// Compares two identifiers field by field.
pub fn cmp_guid(a: &Guid, b: &Guid) -> (r: bool)
    ensures
        r == a.spec_eq(*b),
{
    let fixed = a.data1 == b.data1 && a.data2 == b.data2 && a.data3 == b.data3;
    let mut tail = true;
    let mut i: usize = 0;
    while i < 8
        invariant
            i <= 8,
            tail == (forall|j: int| 0 <= j < i ==> a.data4@[j] == b.data4@[j]),
        decreases 8 - i,
    {
        tail = tail && (a.data4[i] == b.data4[i]);
        i = i + 1;
    }
    proof {
        if tail {
            assert(a.data4@ =~= b.data4@);
        }
    }
    fixed && tail
}

/// The platform's wave-format descriptor, as plain values.
///
/// `sub_format` is the extensible descriptor's trailing sub-format
/// identifier; it is meaningful only when `format_tag` is
/// `WAVE_FORMAT_EXTENSIBLE` and `cb_size` announces the extension
/// block.
#[derive(Clone, Copy, Debug)]
pub struct WaveFormatEx {
    pub format_tag: u16,
    pub channels: u16,
    pub samples_per_sec: u32,
    pub avg_bytes_per_sec: u32,
    pub block_align: u16,
    pub bits_per_sample: u16,
    pub cb_size: u16,
    pub sub_format: Guid,
}

/// The encoding of a stream's samples.
#[derive(Clone, Copy, Debug, PartialEq, Eq, Structural)]
pub enum FormatTag {
    WaveFormatPcm,
    WaveFormatIeeeFloat,
    WaveFormatExtensible,
    Unsupported,
}

impl FormatTag {
    pub open spec fn spec_to_wave_format_tag(self) -> u16 {
        match self {
            FormatTag::WaveFormatPcm => WAVE_FORMAT_PCM,
            FormatTag::WaveFormatIeeeFloat => WAVE_FORMAT_IEEE_FLOAT,
            FormatTag::WaveFormatExtensible => WAVE_FORMAT_EXTENSIBLE,
            FormatTag::Unsupported => 0,
        }
    }

    /// The raw tag value this encoding is announced with in a
    /// wave-format descriptor.
    pub fn to_wave_format_tag(&self) -> (tag: u16)
        ensures
            tag == self.spec_to_wave_format_tag(),
    {
        match self {
            FormatTag::WaveFormatPcm => WAVE_FORMAT_PCM,
            FormatTag::WaveFormatIeeeFloat => WAVE_FORMAT_IEEE_FLOAT,
            FormatTag::WaveFormatExtensible => WAVE_FORMAT_EXTENSIBLE,
            FormatTag::Unsupported => 0,
        }
    }

    pub open spec fn spec_from_tag(tag: u16) -> FormatTag {
        if tag == WAVE_FORMAT_PCM {
            FormatTag::WaveFormatPcm
        } else if tag == WAVE_FORMAT_IEEE_FLOAT {
            FormatTag::WaveFormatIeeeFloat
        } else if tag == WAVE_FORMAT_EXTENSIBLE {
            FormatTag::WaveFormatExtensible
        } else {
            FormatTag::Unsupported
        }
    }

    /// The encoding a raw descriptor tag value announces; values
    /// outside the known set map to `Unsupported`.
    pub fn from_tag(tag: u16) -> (t: FormatTag)
        ensures
            t == FormatTag::spec_from_tag(tag),
    {
        if tag == WAVE_FORMAT_PCM {
            FormatTag::WaveFormatPcm
        } else if tag == WAVE_FORMAT_IEEE_FLOAT {
            FormatTag::WaveFormatIeeeFloat
        } else if tag == WAVE_FORMAT_EXTENSIBLE {
            FormatTag::WaveFormatExtensible
        } else {
            FormatTag::Unsupported
        }
    }
}

/// The encoding a whole descriptor announces: the raw tag, except
/// that an extensible descriptor resolves through its sub-format
/// identifier — integer and float PCM normalize to their plain tags,
/// anything else is `Unsupported`.
pub open spec fn spec_resolved_tag(w: WaveFormatEx) -> FormatTag {
    let raw_tag = FormatTag::spec_from_tag(w.format_tag);
    if raw_tag == FormatTag::WaveFormatExtensible {
        if w.sub_format.spec_eq(spec_subtype_pcm()) {
            FormatTag::WaveFormatPcm
        } else if w.sub_format.spec_eq(spec_subtype_ieee_float()) {
            FormatTag::WaveFormatIeeeFloat
        } else {
            FormatTag::Unsupported
        }
    } else {
        raw_tag
    }
}

/// The PCM layout of a stream: encoding, channel count, sample rate
/// and sample width.
#[derive(Clone, Copy, Debug, PartialEq, Eq, Structural)]
pub struct SampleFormat {
    format_tag: FormatTag,
    channels: u16,
    sample_rate: u32,
    bits_per_sample: u16,
}

impl SampleFormat {
    pub closed spec fn spec_format_tag(self) -> FormatTag {
        self.format_tag
    }

    pub closed spec fn spec_channels(self) -> u16 {
        self.channels
    }

    pub closed spec fn spec_sample_rate(self) -> u32 {
        self.sample_rate
    }

    pub closed spec fn spec_bits_per_sample(self) -> u16 {
        self.bits_per_sample
    }

    /// Bytes of one frame: one sample per channel.
    pub open spec fn spec_block_align(self) -> int {
        (self.spec_channels() * self.spec_bits_per_sample()) as int / 8
    }

    /// Bytes of one second of audio.
    pub open spec fn spec_avg_bytes_per_sec(self) -> int {
        self.spec_sample_rate() * self.spec_block_align()
    }

    /// The derived per-frame and per-second byte counts stay inside
    /// their machine fields; conversion to a platform descriptor and
    /// the pump's byte computations rest on this.
    pub open spec fn wf(self) -> bool {
        &&& self.spec_channels() * self.spec_bits_per_sample() <= u16::MAX
        &&& self.spec_sample_rate() * self.spec_block_align() <= u32::MAX
    }

    pub fn new(format_tag: FormatTag, channel: u16, n_samples_per_sec: u32, w_bits_per_sample: u16) -> (f: Self)
        ensures
            f.spec_format_tag() == format_tag,
            f.spec_channels() == channel,
            f.spec_sample_rate() == n_samples_per_sec,
            f.spec_bits_per_sample() == w_bits_per_sample,
    {
        Self { format_tag, channels: channel, sample_rate: n_samples_per_sec, bits_per_sample: w_bits_per_sample }
    }

    pub fn get_format_tag(&self) -> (t: &FormatTag)
        ensures
            *t == self.spec_format_tag(),
    {
        &self.format_tag
    }

    pub fn get_channel(&self) -> (c: u16)
        ensures
            c == self.spec_channels(),
    {
        self.channels
    }

    pub fn get_n_samples_per_sec(&self) -> (r: u32)
        ensures
            r == self.spec_sample_rate(),
    {
        self.sample_rate
    }

    pub fn get_w_bits_per_sample(&self) -> (b: u16)
        ensures
            b == self.spec_bits_per_sample(),
    {
        self.bits_per_sample
    }

    /// Bytes of one frame: channel count times bytes per sample.
    pub fn block_align(&self) -> (r: u16)
        requires
            self.spec_channels() * self.spec_bits_per_sample() <= u16::MAX,
        ensures
            r == self.spec_block_align(),
    {
        self.channels * self.bits_per_sample / 8
    }

    /// Bytes of one second of audio: sample rate times frame size.
    pub fn avg_bytes_per_sec(&self) -> (r: u32)
        requires
            self.wf(),
        ensures
            r == self.spec_avg_bytes_per_sec(),
    {
        self.sample_rate * self.block_align() as u32
    }

    /// The layout assumed when the caller overrides nothing.
    pub closed spec fn spec_default() -> Self {
        SampleFormat {
            format_tag: FormatTag::WaveFormatIeeeFloat,
            channels: 2,
            sample_rate: 44100,
            bits_per_sample: 32,
        }
    }

    /// Stereo 32-bit float at 44.1 kHz: the layout assumed when the
    /// caller overrides nothing.
    pub fn default() -> (f: Self)
        ensures
            f == SampleFormat::spec_default(),
            f.spec_format_tag() == FormatTag::WaveFormatIeeeFloat,
            f.spec_channels() == 2,
            f.spec_sample_rate() == 44100,
            f.spec_bits_per_sample() == 32,
            f.wf(),
    {
        Self {
            format_tag: FormatTag::WaveFormatIeeeFloat,
            channels: 2,
            sample_rate: 44100,
            bits_per_sample: 32,
        }
    }

    /// Reads a platform descriptor back into a `SampleFormat`: the
    /// resolved encoding plus the descriptor's channel count, sample
    /// rate and sample width.
    ///
    /// An extensible descriptor must announce its extension block in
    /// `cb_size`; a shorter one is a contract violation at the
    /// platform boundary.
    pub fn from_wave_format_ex(w: &WaveFormatEx) -> (f: Self)
        requires
            w.format_tag == WAVE_FORMAT_EXTENSIBLE ==> w.cb_size >= WAVE_FORMAT_EXTENSIBLE_CB_SIZE,
        ensures
            f.spec_format_tag() == spec_resolved_tag(*w),
            f.spec_channels() == w.channels,
            f.spec_sample_rate() == w.samples_per_sec,
            f.spec_bits_per_sample() == w.bits_per_sample,
    {
        let raw_tag = FormatTag::from_tag(w.format_tag);
        let format_tag = match raw_tag {
            FormatTag::WaveFormatExtensible => {
                if cmp_guid(&w.sub_format, &ksdataformat_subtype_pcm()) {
                    FormatTag::WaveFormatPcm
                } else if cmp_guid(&w.sub_format, &ksdataformat_subtype_ieee_float()) {
                    FormatTag::WaveFormatIeeeFloat
                } else {
                    FormatTag::Unsupported
                }
            },
            _ => raw_tag,
        };
        Self {
            format_tag,
            channels: w.channels,
            sample_rate: w.samples_per_sec,
            bits_per_sample: w.bits_per_sample,
        }
    }

    /// The platform descriptor this layout is announced with: base
    /// fields only, extension block absent.
    pub open spec fn spec_to_wave_format_ex(self) -> WaveFormatEx {
        let sample_size_bytes = self.spec_bits_per_sample() as int / 8;
        WaveFormatEx {
            format_tag: self.spec_format_tag().spec_to_wave_format_tag(),
            channels: self.spec_channels(),
            samples_per_sec: self.spec_sample_rate(),
            avg_bytes_per_sec: (self.spec_sample_rate() * self.spec_channels() * sample_size_bytes) as u32,
            block_align: (self.spec_channels() * sample_size_bytes) as u16,
            bits_per_sample: self.spec_bits_per_sample(),
            cb_size: 0,
            sub_format: Guid { data1: 0, data2: 0, data3: 0, data4: [0, 0, 0, 0, 0, 0, 0, 0] },
        }
    }

    /// Writes this layout out as a platform descriptor.
    pub fn to_wave_format_ex(&self) -> (w: WaveFormatEx)
        requires
            self.wf(),
            self.spec_sample_rate() * self.spec_channels() <= u32::MAX,
        ensures
            w == self.spec_to_wave_format_ex(),
    {
        let sample_size_bytes = self.bits_per_sample / 8;
        proof {
            let r = self.sample_rate as int;
            let c = self.channels as int;
            let b = self.bits_per_sample as int;
            assert(c * (b / 8) <= (c * b) / 8) by (nonlinear_arith)
                requires c >= 0 && b >= 0;
            assert(r * c * (b / 8) == r * (c * (b / 8))) by (nonlinear_arith);
            vstd::arithmetic::mul::lemma_mul_inequality(c * (b / 8), (c * b) / 8, r);
            vstd::arithmetic::mul::lemma_mul_is_commutative(c * (b / 8), r);
            vstd::arithmetic::mul::lemma_mul_is_commutative((c * b) / 8, r);
        }
        WaveFormatEx {
            format_tag: self.format_tag.to_wave_format_tag(),
            channels: self.channels,
            samples_per_sec: self.sample_rate,
            avg_bytes_per_sec: self.sample_rate * self.channels as u32 * sample_size_bytes as u32,
            block_align: self.channels * sample_size_bytes,
            bits_per_sample: self.bits_per_sample,
            cb_size: 0,
            sub_format: Guid { data1: 0, data2: 0, data3: 0, data4: [0, 0, 0, 0, 0, 0, 0, 0] },
        }
    }
}

/// The derived byte counts follow the layout alone: one frame is
/// `channels * bits_per_sample / 8` bytes, one second is
/// `sample_rate` frames.
pub proof fn lemma_derived_byte_rates(f: SampleFormat)
    ensures
        f.spec_block_align() == (f.spec_channels() * f.spec_bits_per_sample()) as int / 8,
        f.spec_avg_bytes_per_sec() == f.spec_sample_rate() * f.spec_block_align(),
{
}

/// Round trip: writing a layout out as a platform descriptor and
/// reading it back preserves the channel count, sample rate, sample
/// width and encoding. The descriptor written here never carries an
/// extension block, so layouts already tagged extensible are not
/// covered: reading their descriptor back resolves the sub-format
/// identifier instead.
pub proof fn lemma_wave_format_round_trip(f: SampleFormat)
    requires
        f.spec_format_tag() != FormatTag::WaveFormatExtensible,
    ensures
        ({
            let w = f.spec_to_wave_format_ex();
            &&& spec_resolved_tag(w) == f.spec_format_tag()
            &&& w.channels == f.spec_channels()
            &&& w.samples_per_sec == f.spec_sample_rate()
            &&& w.bits_per_sample == f.spec_bits_per_sample()
        }),
{
}

/// An extensible descriptor whose sub-format names integer PCM reads
/// back with the plain PCM tag: the two spellings of PCM normalize to
/// one.
pub proof fn lemma_extensible_pcm_normalizes(w: WaveFormatEx)
    requires
        w.format_tag == WAVE_FORMAT_EXTENSIBLE,
        w.sub_format.spec_eq(spec_subtype_pcm()),
    ensures
        spec_resolved_tag(w) == FormatTag::WaveFormatPcm,
{
}

} // verus!
