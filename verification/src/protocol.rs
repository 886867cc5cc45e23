//! The shapes the control plane reports: track, format and device
//! summaries. The wire framing and its serialization live in the host
//! layer; here stand the plain values and the verified mapping from the
//! pipeline's types.
use vstd::prelude::*;
use crate::format::{AudioFormat, SampleFormat};

verus! {

/// A track summary for the control plane. Durations are in milliseconds.
#[derive(Debug, Clone)]
pub struct TrackInfo {
    pub path: String,
    pub title: Option<String>,
    pub artist: Option<String>,
    pub album: Option<String>,
    pub duration_ms: Option<u64>,
    pub format: AudioFormatInfo,
}

/// A format as reported outward: the encoding by name.
#[derive(Debug, Clone)]
pub struct AudioFormatInfo {
    pub sample_rate: u32,
    pub channels: u16,
    pub sample_format: String,
    pub bit_depth: Option<u8>,
}

/// The name an encoding is reported under.
pub open spec fn spec_encoding_name(f: SampleFormat) -> Seq<char> {
    match f {
        SampleFormat::U8 => "U8"@,
        SampleFormat::S16 => "S16"@,
        SampleFormat::S24 => "S24"@,
        SampleFormat::S32 => "S32"@,
        SampleFormat::F32 => "F32"@,
        SampleFormat::F64 => "F64"@,
    }
}

pub fn encoding_name(f: SampleFormat) -> (r: &'static str)
    ensures
        r@ == spec_encoding_name(f),
{
    match f {
        SampleFormat::U8 => "U8",
        SampleFormat::S16 => "S16",
        SampleFormat::S24 => "S24",
        SampleFormat::S32 => "S32",
        SampleFormat::F32 => "F32",
        SampleFormat::F64 => "F64",
    }
}

impl AudioFormatInfo {
    /// The outward report of a pipeline format.
    pub fn from_format(format: &AudioFormat) -> (r: Self)
        ensures
            r.sample_rate == format.sample_rate,
            r.channels == format.channels,
            r.sample_format@ == spec_encoding_name(format.sample_format),
            r.bit_depth is None,
    {
        Self {
            sample_rate: format.sample_rate,
            channels: format.channels,
            sample_format: encoding_name(format.sample_format).to_owned(),
            bit_depth: None,
        }
    }
}

/// A device summary for the control plane.
#[derive(Debug, Clone)]
pub struct DeviceInfo {
    pub index: usize,
    pub name: String,
    pub is_default: bool,
    pub max_channels: u16,
    pub max_sample_rate: u32,
}

impl DeviceInfo {
    /// The outward report of a registry device summary.
    pub fn from_device_info(d: &crate::device::DeviceInfo) -> (r: Self)
        ensures
            r.index == d.index,
            r.name@ == d.name@,
            r.is_default == d.is_default,
            r.max_channels == d.max_channels,
            r.max_sample_rate == d.max_sample_rate,
    {
        Self {
            index: d.index,
            name: d.name.clone(),
            is_default: d.is_default,
            max_channels: d.max_channels,
            max_sample_rate: d.max_sample_rate,
        }
    }
}

} // verus!
