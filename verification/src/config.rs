use vstd::prelude::*;

verus! {

/// The device sample representations the pipeline can negotiate. The caller
/// converts the device library's format tag into this closed set once, at
/// stream-configuration time.
#[derive(Clone, Copy, Debug, PartialEq, Eq, Structural)]
pub enum SampleFormatKind {
    Int8,
    Int16,
    Int32,
    Float32,
}

/// The two sample encodings a wave container distinguishes.
#[derive(Clone, Copy, Debug, PartialEq, Eq, Structural)]
pub enum WavSampleKind {
    Int,
    Float,
}

/// The negotiated stream parameters, fixed before the pipeline starts.
#[derive(Clone, Copy, Debug, PartialEq, Eq, Structural)]
pub struct StreamConfig {
    pub sample_rate: u32,
    pub channels: u16,
    pub format: SampleFormatKind,
}

/// What the output wave container's header must hold.
#[derive(Clone, Copy, Debug, PartialEq, Eq, Structural)]
pub struct WavSpecModel {
    pub channels: u16,
    pub sample_rate: u32,
    pub bits_per_sample: u16,
    pub sample_format: WavSampleKind,
}

/// Size of one sample of `format`, in bytes.
pub open spec fn spec_sample_size(format: SampleFormatKind) -> u16 {
    match format {
        SampleFormatKind::Int8 => 1,
        SampleFormatKind::Int16 => 2,
        SampleFormatKind::Int32 => 4,
        SampleFormatKind::Float32 => 4,
    }
}

/// Size of one sample of `format`, in bytes.
pub fn sample_size(format: SampleFormatKind) -> (n: u16)
    ensures
        n == spec_sample_size(format),
{
    match format {
        SampleFormatKind::Int8 => 1,
        SampleFormatKind::Int16 => 2,
        SampleFormatKind::Int32 => 4,
        SampleFormatKind::Float32 => 4,
    }
}

/// Map a device sample format to the wave container's sample encoding:
/// floating-point stays floating-point, every integer width is integer.
pub fn sample_format_converter(format: SampleFormatKind) -> (r: WavSampleKind)
    ensures
        r == WavSampleKind::Float <==> format == SampleFormatKind::Float32,
{
    match format {
        SampleFormatKind::Float32 => WavSampleKind::Float,
        _ => WavSampleKind::Int,
    }
}

/// Build the output wave container's header values from the negotiated
/// stream configuration: forced to stereo, same sample rate, bit depth and
/// encoding taken from the device sample format.
pub fn wav_file_spec_from_config(config: &StreamConfig) -> (spec: WavSpecModel)
    ensures
        spec.channels == 2,
        spec.sample_rate == config.sample_rate,
        spec.bits_per_sample == spec_sample_size(config.format) * 8,
        spec.sample_format == WavSampleKind::Float <==> config.format
            == SampleFormatKind::Float32,
{
    WavSpecModel {
        channels: 2,
        sample_rate: config.sample_rate,
        bits_per_sample: sample_size(config.format) * 8,
        sample_format: sample_format_converter(config.format),
    }
}

/// Whether a device configuration range satisfies the pipeline's
/// requirements: stereo, and the desired sample rate inside the range the
/// device supports.
pub fn config_supported(channels: u16, min_rate: u32, max_rate: u32, desired_rate: u32) -> (r:
    bool)
    ensures
        r <==> (channels == 2 && min_rate <= desired_rate && desired_rate <= max_rate),
{
    channels == 2 && min_rate <= desired_rate && desired_rate <= max_rate
}

} // verus!
