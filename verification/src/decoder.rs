//! The decoder's bookkeeping.
//!
//! The container probe and the per-packet pulls are file I/O and run in the
//! host layer; it opens the source, learns the native format and length,
//! and hands them here. This model owns what the pipeline decides from
//! them: the read position, the length, seeking, and the format mapping.
use vstd::prelude::*;
use crate::clock::{spec_cap_u64, spec_sat_add_u64};
use crate::errors::AudioError;
use crate::format::{AudioFormat, SampleFormat};

verus! {

/// The sample encoding a track with the given bit width decodes to:
/// 8 → U8, 16 → S16, 24 → S24, 32 → S32 (or F32 for float sources);
/// anything else falls back to S16.
pub open spec fn spec_sample_format_for_bits(bits: u32, float_source: bool) -> SampleFormat {
    if bits == 8 {
        SampleFormat::U8
    } else if bits == 16 {
        SampleFormat::S16
    } else if bits == 24 {
        SampleFormat::S24
    } else if bits == 32 {
        if float_source {
            SampleFormat::F32
        } else {
            SampleFormat::S32
        }
    } else {
        SampleFormat::S16
    }
}

pub fn sample_format_for_bits(bits: u32, float_source: bool) -> (r: SampleFormat)
    ensures
        r == spec_sample_format_for_bits(bits, float_source),
{
    match bits {
        8 => SampleFormat::U8,
        16 => SampleFormat::S16,
        24 => SampleFormat::S24,
        32 => {
            if float_source {
                SampleFormat::F32
            } else {
                SampleFormat::S32
            }
        }
        _ => SampleFormat::S16,
    }
}

/// Decode-position accounting for one open track.
pub struct Decoder {
    pub format: AudioFormat,
    pub total_frames: Option<u64>,
    pub current_frame: u64,
}

impl Decoder {
    /// Install the parameters the host layer's probe produced.
    pub fn new(format: AudioFormat, total_frames: Option<u64>) -> (r: Self)
        ensures
            r.format == format,
            r.total_frames == total_frames,
            r.current_frame == 0,
    {
        Self { format, total_frames, current_frame: 0 }
    }

    pub fn format(&self) -> (r: AudioFormat)
        ensures
            r == self.format,
    {
        self.format
    }

    pub fn total_frames(&self) -> (r: Option<u64>)
        ensures
            r == self.total_frames,
    {
        self.total_frames
    }

    pub fn current_frame(&self) -> (r: u64)
        ensures
            r == self.current_frame,
    {
        self.current_frame
    }

    /// Track length in milliseconds, when the container declares one.
    pub fn duration_ms(&self) -> (r: Option<u64>)
        requires
            self.format.sample_rate >= 1,
        ensures
            r == match self.total_frames {
                Some(frames) => Some(
                    spec_cap_u64(frames * 1000 / self.format.sample_rate as int) as u64,
                ),
                None => None::<u64>,
            },
    {
        match self.total_frames {
            Some(frames) => {
                let ms128: u128 = (frames as u128) * 1000u128 / (self.format.sample_rate as u128);
                let ms: u64 = if ms128 > u64::MAX as u128 { u64::MAX } else { ms128 as u64 };
                Some(ms)
            }
            None => None,
        }
    }

    /// Account for a decode that produced `frames` frames. A decode that
    /// produced nothing — the end of the stream — leaves the position
    /// exactly where it was.
    pub fn record_decoded(&mut self, frames: u64)
        ensures
            final(self).current_frame == spec_sat_add_u64(
                old(self).current_frame as int,
                frames as int,
            ),
            final(self).format == old(self).format,
            final(self).total_frames == old(self).total_frames,
            frames == 0 ==> *final(self) == *old(self),
    {
        self.current_frame = if frames > u64::MAX - self.current_frame {
            u64::MAX
        } else {
            self.current_frame + frames
        };
    }

    /// Move the read position; the host layer repositions the container to
    /// the same frame.
    pub fn seek(&mut self, frame: u64) -> (r: Result<(), AudioError>)
        ensures
            r is Ok,
            final(self).current_frame == frame,
            final(self).format == old(self).format,
            final(self).total_frames == old(self).total_frames,
    {
        self.current_frame = frame;
        Ok(())
    }

    /// Drop decode scratch. The scratch lives beside the codec in the host
    /// layer; the position is untouched.
    pub fn reset(&mut self)
        ensures
            *final(self) == *old(self),
    {
    }

    /// Whether the read position has passed the declared end.
    pub fn at_end(&self) -> (r: bool)
        ensures
            r == match self.total_frames {
                Some(total) => self.current_frame >= total,
                None => false,
            },
    {
        match self.total_frames {
            Some(total) => self.current_frame >= total,
            None => false,
        }
    }
}

} // verus!
