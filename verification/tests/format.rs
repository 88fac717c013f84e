use win_acapture_rs::sample_format::{
    cmp_guid, ksdataformat_subtype_ieee_float, ksdataformat_subtype_pcm, FormatTag, Guid,
    SampleFormat, WaveFormatEx, WAVE_FORMAT_EXTENSIBLE, WAVE_FORMAT_IEEE_FLOAT, WAVE_FORMAT_PCM,
};

fn round_trip(f: SampleFormat) -> SampleFormat {
    let w = f.to_wave_format_ex();
    SampleFormat::from_wave_format_ex(&w)
}

#[test]
fn wave_format_round_trip_pcm() {
    let f = SampleFormat::new(FormatTag::WaveFormatPcm, 2, 48000, 16);
    let g = round_trip(f);
    assert_eq!(g.get_channel(), 2);
    assert_eq!(g.get_n_samples_per_sec(), 48000);
    assert_eq!(g.get_w_bits_per_sample(), 16);
    assert_eq!(*g.get_format_tag(), FormatTag::WaveFormatPcm);
}

#[test]
fn wave_format_round_trip_ieee_float() {
    let f = SampleFormat::default();
    let g = round_trip(f);
    assert_eq!(g, f);
}

#[test]
fn wave_format_round_trip_unsupported_tag() {
    let f = SampleFormat::new(FormatTag::Unsupported, 1, 8000, 8);
    let g = round_trip(f);
    assert_eq!(*g.get_format_tag(), FormatTag::Unsupported);
    assert_eq!(g.get_channel(), 1);
}

#[test]
fn wave_format_descriptor_fields() {
    let f = SampleFormat::new(FormatTag::WaveFormatPcm, 2, 48000, 16);
    let w = f.to_wave_format_ex();
    assert_eq!(w.format_tag, WAVE_FORMAT_PCM);
    assert_eq!(w.channels, 2);
    assert_eq!(w.samples_per_sec, 48000);
    assert_eq!(w.bits_per_sample, 16);
    assert_eq!(w.block_align, 4);
    assert_eq!(w.avg_bytes_per_sec, 192000);
    assert_eq!(w.cb_size, 0);
}

#[test]
fn extensible_pcm_normalizes_to_plain_pcm() {
    let w = WaveFormatEx {
        format_tag: WAVE_FORMAT_EXTENSIBLE,
        channels: 2,
        samples_per_sec: 44100,
        avg_bytes_per_sec: 176400,
        block_align: 4,
        bits_per_sample: 16,
        cb_size: 22,
        sub_format: ksdataformat_subtype_pcm(),
    };
    let f = SampleFormat::from_wave_format_ex(&w);
    assert_eq!(*f.get_format_tag(), FormatTag::WaveFormatPcm);
}

#[test]
fn extensible_float_normalizes_to_plain_float() {
    let w = WaveFormatEx {
        format_tag: WAVE_FORMAT_EXTENSIBLE,
        channels: 2,
        samples_per_sec: 48000,
        avg_bytes_per_sec: 384000,
        block_align: 8,
        bits_per_sample: 32,
        cb_size: 22,
        sub_format: ksdataformat_subtype_ieee_float(),
    };
    let f = SampleFormat::from_wave_format_ex(&w);
    assert_eq!(*f.get_format_tag(), FormatTag::WaveFormatIeeeFloat);
}

#[test]
fn extensible_unknown_subformat_is_unsupported() {
    let w = WaveFormatEx {
        format_tag: WAVE_FORMAT_EXTENSIBLE,
        channels: 2,
        samples_per_sec: 48000,
        avg_bytes_per_sec: 384000,
        block_align: 8,
        bits_per_sample: 32,
        cb_size: 22,
        sub_format: Guid { data1: 77, data2: 0, data3: 0, data4: [0; 8] },
    };
    let f = SampleFormat::from_wave_format_ex(&w);
    assert_eq!(*f.get_format_tag(), FormatTag::Unsupported);
}

#[test]
fn block_align_is_channels_times_sample_bytes() {
    let f = SampleFormat::new(FormatTag::WaveFormatPcm, 2, 48000, 16);
    assert_eq!(f.block_align(), 4);
    let g = SampleFormat::new(FormatTag::WaveFormatIeeeFloat, 6, 44100, 32);
    assert_eq!(g.block_align(), 24);
    let mono = SampleFormat::new(FormatTag::WaveFormatPcm, 1, 8000, 8);
    assert_eq!(mono.block_align(), 1);
}

#[test]
fn avg_bytes_per_sec_is_rate_times_block_align() {
    let f = SampleFormat::new(FormatTag::WaveFormatPcm, 2, 48000, 16);
    assert_eq!(f.avg_bytes_per_sec(), 48000 * 4);
    let g = SampleFormat::default();
    assert_eq!(g.avg_bytes_per_sec(), 44100 * 8);
}

#[test]
fn default_format_is_stereo_float() {
    let f = SampleFormat::default();
    assert_eq!(*f.get_format_tag(), FormatTag::WaveFormatIeeeFloat);
    assert_eq!(f.get_channel(), 2);
    assert_eq!(f.get_n_samples_per_sec(), 44100);
    assert_eq!(f.get_w_bits_per_sample(), 32);
}

#[test]
fn format_tag_raw_values() {
    assert_eq!(FormatTag::WaveFormatPcm.to_wave_format_tag(), 1);
    assert_eq!(FormatTag::WaveFormatIeeeFloat.to_wave_format_tag(), 3);
    assert_eq!(FormatTag::WaveFormatExtensible.to_wave_format_tag(), 0xFFFE);
    assert_eq!(FormatTag::Unsupported.to_wave_format_tag(), 0);
    assert_eq!(FormatTag::from_tag(WAVE_FORMAT_PCM), FormatTag::WaveFormatPcm);
    assert_eq!(FormatTag::from_tag(WAVE_FORMAT_IEEE_FLOAT), FormatTag::WaveFormatIeeeFloat);
    assert_eq!(FormatTag::from_tag(WAVE_FORMAT_EXTENSIBLE), FormatTag::WaveFormatExtensible);
    assert_eq!(FormatTag::from_tag(2), FormatTag::Unsupported);
}

#[test]
fn guid_comparison_is_field_by_field() {
    let a = ksdataformat_subtype_pcm();
    let b = ksdataformat_subtype_pcm();
    let c = ksdataformat_subtype_ieee_float();
    assert!(cmp_guid(&a, &b));
    assert!(!cmp_guid(&a, &c));
    let mut d = ksdataformat_subtype_pcm();
    d.data4[7] = 0;
    assert!(!cmp_guid(&a, &d));
}
