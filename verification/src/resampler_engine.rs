//! The DSP chain's resampler stage: quality settings and the bypass path.
//!
//! Quality maps to the sinc length and oversampling factor the host layer's
//! windowed-sinc kernel is built with. With equal rates the stage is an
//! identity, proved here; the kernel itself runs in the host layer.
use vstd::prelude::*;
use crate::errors::AudioError;
use crate::format::AudioFormat;
use crate::resampler::copy_words;

verus! {

#[derive(Debug, Clone, Copy, PartialEq, Eq, Structural)]
pub enum ResampleQuality {
    Low,
    Medium,
    High,
    VeryHigh,
}

impl ResampleQuality {
    pub open spec fn spec_sinc_len(self) -> int {
        match self {
            ResampleQuality::Low => 64,
            ResampleQuality::Medium => 128,
            ResampleQuality::High => 256,
            ResampleQuality::VeryHigh => 512,
        }
    }

    pub open spec fn spec_oversampling_factor(self) -> int {
        match self {
            ResampleQuality::Low => 32,
            ResampleQuality::Medium => 64,
            ResampleQuality::High => 128,
            ResampleQuality::VeryHigh => 256,
        }
    }

    /// Length of the sinc interpolation filter for this quality.
    pub fn sinc_len(&self) -> (r: usize)
        ensures
            r == self.spec_sinc_len(),
    {
        match self {
            ResampleQuality::Low => 64,
            ResampleQuality::Medium => 128,
            ResampleQuality::High => 256,
            ResampleQuality::VeryHigh => 512,
        }
    }

    /// Oversampling factor of the interpolation table for this quality.
    pub fn oversampling_factor(&self) -> (r: usize)
        ensures
            r == self.spec_oversampling_factor(),
    {
        match self {
            ResampleQuality::Low => 32,
            ResampleQuality::Medium => 64,
            ResampleQuality::High => 128,
            ResampleQuality::VeryHigh => 256,
        }
    }
}

pub struct ResamplerEngine {
    pub input_rate: u32,
    pub output_rate: u32,
    pub channels: u16,
    pub chunk_size: usize,
    pub enabled: bool,
    pub quality: ResampleQuality,
}

impl ResamplerEngine {
    /// Build the stage for the input format, target rate and quality. The
    /// parameter model always succeeds; constructing the host layer's
    /// kernel is that layer's concern.
    pub fn new(input_format: AudioFormat, output_rate: u32, quality: ResampleQuality) -> (r:
        Result<Self, AudioError>)
        ensures
            r is Ok,
            r->Ok_0.input_rate == input_format.sample_rate,
            r->Ok_0.output_rate == output_rate,
            r->Ok_0.channels == input_format.channels,
            r->Ok_0.chunk_size == 1024,
            r->Ok_0.enabled,
            r->Ok_0.quality == quality,
    {
        Ok(Self {
            input_rate: input_format.sample_rate,
            output_rate,
            channels: input_format.channels,
            chunk_size: 1024,
            enabled: true,
            quality,
        })
    }

    /// Change the quality; the host layer rebuilds its kernel when rates
    /// differ. Never fails.
    pub fn set_quality(&mut self, quality: ResampleQuality) -> (r: Result<(), AudioError>)
        ensures
            r is Ok,
            final(self).quality == quality,
            final(self).input_rate == old(self).input_rate,
            final(self).output_rate == old(self).output_rate,
            final(self).channels == old(self).channels,
            final(self).chunk_size == old(self).chunk_size,
            final(self).enabled == old(self).enabled,
    {
        self.quality = quality;
        Ok(())
    }

    pub fn get_quality(&self) -> (r: ResampleQuality)
        ensures
            r == self.quality,
    {
        self.quality
    }

    pub open spec fn spec_needs_resampling(self) -> bool {
        self.input_rate != self.output_rate
    }

    pub fn needs_resampling(&self) -> (r: bool)
        ensures
            r == self.spec_needs_resampling(),
    {
        self.input_rate != self.output_rate
    }

    /// The identity path: with equal rates the input words come back
    /// unchanged, bit for bit. With differing rates the caller must run the
    /// sinc kernel instead, and nothing is returned.
    pub fn process_identity(&self, input: &Vec<u32>) -> (r: Option<Vec<u32>>)
        ensures
            r is Some <==> !self.spec_needs_resampling(),
            r is Some ==> r->Some_0@ == input@,
    {
        if self.input_rate == self.output_rate {
            Some(copy_words(input))
        } else {
            None
        }
    }

    pub fn input_rate(&self) -> (r: u32)
        ensures
            r == self.input_rate,
    {
        self.input_rate
    }

    pub fn output_rate(&self) -> (r: u32)
        ensures
            r == self.output_rate,
    {
        self.output_rate
    }

    pub fn channels(&self) -> (r: u16)
        ensures
            r == self.channels,
    {
        self.channels
    }

    pub fn is_enabled(&self) -> (r: bool)
        ensures
            r == self.enabled,
    {
        self.enabled
    }

    pub fn set_enabled(&mut self, enabled: bool)
        ensures
            final(self).enabled == enabled,
            final(self).input_rate == old(self).input_rate,
            final(self).output_rate == old(self).output_rate,
            final(self).channels == old(self).channels,
            final(self).chunk_size == old(self).chunk_size,
            final(self).quality == old(self).quality,
    {
        self.enabled = enabled;
    }
}

} // verus!
