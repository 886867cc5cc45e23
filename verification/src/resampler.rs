//! Rate-conversion front end used by the decoder path.
//!
//! This type carries the conversion parameters and decides when conversion
//! is needed at all. With equal input and output rates it is an identity and
//! samples pass through bit-for-bit, which is proved here; with differing
//! rates the windowed-sinc kernel runs in the host layer, which owns the
//! float sample domain.
use vstd::prelude::*;
use crate::errors::AudioError;
use crate::format::AudioFormat;

verus! {

pub struct Resampler {
    pub input_rate: u32,
    pub output_rate: u32,
    pub channels: u16,
    pub chunk_size: usize,
}

impl Resampler {
    /// Build a converter from the input format to `output_rate`. The
    /// parameter model always succeeds; constructing the host layer's
    /// kernel is that layer's concern.
    pub fn new(input_format: AudioFormat, output_rate: u32) -> (r: Result<Self, AudioError>)
        ensures
            r is Ok,
            r->Ok_0.input_rate == input_format.sample_rate,
            r->Ok_0.output_rate == output_rate,
            r->Ok_0.channels == input_format.channels,
            r->Ok_0.chunk_size == 1024,
    {
        Ok(Self {
            input_rate: input_format.sample_rate,
            output_rate,
            channels: input_format.channels,
            chunk_size: 1024,
        })
    }

    pub open spec fn spec_needs_resampling(self) -> bool {
        self.input_rate != self.output_rate
    }

    pub fn needs_resampling(&self) -> (r: bool)
        ensures
            r == self.spec_needs_resampling(),
    {
        self.input_rate != self.output_rate
    }

    /// The identity path: with equal rates the input words come back
    /// unchanged, bit for bit. With differing rates the caller must run the
    /// sinc kernel instead, and nothing is returned.
    pub fn process_identity(&self, input: &Vec<u32>) -> (r: Option<Vec<u32>>)
        ensures
            r is Some <==> !self.spec_needs_resampling(),
            r is Some ==> r->Some_0@ == input@,
    {
        if self.input_rate == self.output_rate {
            Some(copy_words(input))
        } else {
            None
        }
    }

    pub fn input_rate(&self) -> (r: u32)
        ensures
            r == self.input_rate,
    {
        self.input_rate
    }

    pub fn output_rate(&self) -> (r: u32)
        ensures
            r == self.output_rate,
    {
        self.output_rate
    }

    pub fn channels(&self) -> (r: u16)
        ensures
            r == self.channels,
    {
        self.channels
    }

    /// Conversion ratio in thousandths: output rate over input rate.
    pub fn ratio_milli(&self) -> (r: u64)
        requires
            self.input_rate >= 1,
        ensures
            r == self.output_rate * 1000 / (self.input_rate as int),
    {
        (self.output_rate as u64) * 1000 / (self.input_rate as u64)
    }
}

/// Copy a word buffer.
pub fn copy_words(v: &Vec<u32>) -> (r: Vec<u32>)
    ensures
        r@ == v@,
{
    let mut r: Vec<u32> = Vec::new();
    let mut i: usize = 0;
    while i < v.len()
        invariant
            i <= v@.len(),
            r@ == v@.take(i as int),
        decreases v@.len() - i,
    {
        r.push(v[i]);
        proof {
            assert(r@ =~= v@.take(i as int + 1));
        }
        i = i + 1;
    }
    proof {
        assert(v@.take(v@.len() as int) =~= v@);
    }
    r
}

} // verus!
