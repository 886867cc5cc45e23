//! A track as the decoder path sees it: its source path, native format,
//! declared length and current position. Times are in milliseconds.
use vstd::prelude::*;
use crate::format::AudioFormat;

verus! {

pub struct AudioStream {
    pub path: String,
    pub format: AudioFormat,
    pub duration_ms: Option<u64>,
    pub position_ms: u64,
}

impl AudioStream {
    pub fn new(path: String, format: AudioFormat, duration_ms: Option<u64>) -> (r: Self)
        ensures
            r.path == path,
            r.format == format,
            r.duration_ms == duration_ms,
            r.position_ms == 0,
    {
        Self { path, format, duration_ms, position_ms: 0 }
    }

    pub fn path(&self) -> (r: &String)
        ensures
            r == &self.path,
    {
        &self.path
    }

    pub fn format(&self) -> (r: AudioFormat)
        ensures
            r == self.format,
    {
        self.format
    }

    pub fn duration(&self) -> (r: Option<u64>)
        ensures
            r == self.duration_ms,
    {
        self.duration_ms
    }

    pub fn position(&self) -> (r: u64)
        ensures
            r == self.position_ms,
    {
        self.position_ms
    }

    pub fn set_position(&mut self, pos_ms: u64)
        ensures
            final(self).position_ms == pos_ms,
            final(self).path == old(self).path,
            final(self).format == old(self).format,
            final(self).duration_ms == old(self).duration_ms,
    {
        self.position_ms = pos_ms;
    }

    /// Played share of the track in thousandths; 0 without a declared
    /// length or for an empty track.
    pub fn progress_permille(&self) -> (r: u32)
        ensures
            r == match self.duration_ms {
                Some(d) => if d > 0 {
                    if self.position_ms * 1000 / (d as int) > 1000 {
                        1000
                    } else {
                        self.position_ms * 1000 / (d as int)
                    }
                } else {
                    0
                },
                None => 0,
            },
    {
        match self.duration_ms {
            Some(d) => {
                if d > 0 {
                    let p128: u128 = (self.position_ms as u128) * 1000u128 / (d as u128);
                    if p128 > 1000u128 {
                        1000
                    } else {
                        p128 as u32
                    }
                } else {
                    0
                }
            }
            None => 0,
        }
    }

    /// Whether the position has reached the declared end; never true for a
    /// track of unknown length.
    pub fn is_complete(&self) -> (r: bool)
        ensures
            r == match self.duration_ms {
                Some(d) => self.position_ms >= d,
                None => false,
            },
    {
        match self.duration_ms {
            Some(d) => self.position_ms >= d,
            None => false,
        }
    }
}

/// What the probe learned about a source, for display and selection.
pub struct StreamInfo {
    pub path: String,
    pub format: AudioFormat,
    pub duration_ms: Option<u64>,
    pub bitrate: Option<u32>,
    pub codec: String,
}

impl StreamInfo {
    pub fn new(path: String, format: AudioFormat, duration_ms: Option<u64>) -> (r: Self)
        ensures
            r.path == path,
            r.format == format,
            r.duration_ms == duration_ms,
            r.bitrate is None,
            r.codec@ == "Unknown"@,
    {
        Self { path, format, duration_ms, bitrate: None, codec: "Unknown".to_owned() }
    }

    pub fn with_bitrate(self, bitrate: u32) -> (r: Self)
        ensures
            r.bitrate == Some(bitrate),
            r.path == self.path,
            r.format == self.format,
            r.duration_ms == self.duration_ms,
            r.codec == self.codec,
    {
        Self { bitrate: Some(bitrate), ..self }
    }

    pub fn with_codec(self, codec: String) -> (r: Self)
        ensures
            r.codec == codec,
            r.path == self.path,
            r.format == self.format,
            r.duration_ms == self.duration_ms,
            r.bitrate == self.bitrate,
    {
        Self { codec, ..self }
    }
}

} // verus!
