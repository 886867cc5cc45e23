//! Sample encodings and stream formats for the playback pipeline.
use vstd::prelude::*;

verus! {

/// Encoding of a single audio sample.
#[derive(Debug, Clone, Copy, PartialEq, Eq, Structural)]
pub enum SampleFormat {
    U8,
    S16,
    S24,
    S32,
    F32,
    F64,
}

impl SampleFormat {
    /// Width of one sample in bytes.
    pub open spec fn spec_bytes_per_sample(self) -> usize {
        match self {
            SampleFormat::U8 => 1usize,
            SampleFormat::S16 => 2usize,
            SampleFormat::S24 => 3usize,
            SampleFormat::S32 => 4usize,
            SampleFormat::F32 => 4usize,
            SampleFormat::F64 => 8usize,
        }
    }

    pub open spec fn spec_is_float(self) -> bool {
        self == SampleFormat::F32 || self == SampleFormat::F64
    }

    pub fn bytes_per_sample(&self) -> (n: usize)
        ensures
            n == self.spec_bytes_per_sample(),
            1 <= n <= 8,
    {
        match self {
            SampleFormat::U8 => 1,
            SampleFormat::S16 => 2,
            SampleFormat::S24 => 3,
            SampleFormat::S32 => 4,
            SampleFormat::F32 => 4,
            SampleFormat::F64 => 8,
        }
    }

    pub fn is_float(&self) -> (r: bool)
        ensures
            r == self.spec_is_float(),
    {
        matches!(self, SampleFormat::F32 | SampleFormat::F64)
    }

    pub fn is_integer(&self) -> (r: bool)
        ensures
            r == !self.spec_is_float(),
    {
        !self.is_float()
    }
}

/// Immutable description of a PCM stream: rate, channel count and encoding.
/// Two formats are equal exactly when all three fields are equal.
#[derive(Debug, Clone, Copy, PartialEq, Eq, Structural)]
pub struct AudioFormat {
    pub sample_rate: u32,
    pub channels: u16,
    pub sample_format: SampleFormat,
}

impl AudioFormat {
    pub fn new(sample_rate: u32, channels: u16, sample_format: SampleFormat) -> (r: Self)
        ensures
            r.sample_rate == sample_rate,
            r.channels == channels,
            r.sample_format == sample_format,
    {
        Self { sample_rate, channels, sample_format }
    }

    /// Size of one frame (one sample per channel) in bytes.
    pub open spec fn spec_bytes_per_frame(self) -> int {
        self.channels * self.sample_format.spec_bytes_per_sample()
    }

    pub fn bytes_per_frame(&self) -> (n: usize)
        ensures
            n == self.spec_bytes_per_frame(),
            n <= 0x8_0000,
    {
        self.channels as usize * self.sample_format.bytes_per_sample()
    }

    pub fn frames_per_second(&self) -> (n: u32)
        ensures
            n == self.sample_rate,
    {
        self.sample_rate
    }

    pub fn bytes_per_second(&self) -> (n: usize)
        requires
            self.spec_bytes_per_frame() * self.sample_rate <= usize::MAX,
        ensures
            n == self.spec_bytes_per_frame() * self.sample_rate,
    {
        self.bytes_per_frame() * self.sample_rate as usize
    }
}

impl Default for AudioFormat {
    /// CD audio: 44.1 kHz, stereo, 16-bit signed samples.
    fn default() -> (r: Self)
        ensures
            r.sample_rate == 44100,
            r.channels == 2,
            r.sample_format == SampleFormat::S16,
    {
        AudioFormat::new(44100, 2, SampleFormat::S16)
    }
}

} // verus!
