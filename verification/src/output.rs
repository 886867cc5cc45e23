//! The output side: the device stream's state, the callback's byte work,
//! and underrun debouncing.
//!
//! The device API itself (opening the stream, the realtime thread) lives in
//! the host layer, as does the float volume scaling of samples. What is
//! verified here is everything the callback decides about bytes: pull from
//! the ring, pad a short period with the encoding's silence value, and
//! debounce underruns into clusters.
use vstd::prelude::*;
use crate::buffer_pool::{ring_read_post, AudioRingBuffer};
use crate::errors::AudioError;
use crate::format::{AudioFormat, SampleFormat};

verus! {

/// The byte with which a short period is padded: the waveform's resting
/// value. Unsigned 8-bit audio rests at the midpoint 0x80; every other
/// encoding rests at zero bytes.
pub open spec fn spec_silence_byte(f: SampleFormat) -> u8 {
    match f {
        SampleFormat::U8 => 0x80u8,
        _ => 0u8,
    }
}

pub fn silence_byte(f: SampleFormat) -> (r: u8)
    ensures
        r == spec_silence_byte(f),
{
    match f {
        SampleFormat::U8 => 0x80,
        _ => 0,
    }
}

/// One callback period: move up to `out_len` bytes out of the ring, in
/// order; pad the remainder of the period with `silence`. The second result
/// says whether the period came up short — an underrun.
pub fn callback_fill(ring: &mut AudioRingBuffer, out_len: usize, silence: u8) -> (r: (
    Vec<u8>,
    bool,
))
    requires
        old(ring).wf(),
    ensures
        final(ring).wf(),
        r.0@.len() == out_len,
        ({
            let n = vstd::math::min(out_len as int, old(ring).buffer@.len() as int);
            &&& ring_read_post(*old(ring), out_len as int, *final(ring), old(ring).buffer@.take(n))
            &&& r.0@.take(n) == old(ring).buffer@.take(n)
            &&& forall|i: int| n <= i < out_len ==> r.0@[i] == silence
            &&& r.1 == (old(ring).buffer@.len() < out_len)
        }),
{
    let mut out: Vec<u8> = Vec::new();
    while out.len() < out_len
        invariant
            out@.len() <= out_len,
            forall|i: int| 0 <= i < out@.len() ==> out@[i] == silence,
        decreases out_len - out@.len(),
    {
        out.push(silence);
    }
    let n = ring.read(&mut out);
    let underrun = n < out_len;
    proof {
        let m = vstd::math::min(out_len as int, old(ring).buffer@.len() as int);
        assert(out@.take(m) =~= old(ring).buffer@.take(m));
    }
    (out, underrun)
}

/// State change of `UnderrunDebounce::record`: a notification is owed
/// exactly at the first short period of a cluster, and the counter counts
/// clusters.
pub open spec fn debounce_post(
    pre: UnderrunDebounce,
    short: bool,
    post: UnderrunDebounce,
    emit: bool,
) -> bool {
    &&& emit == (short && !pre.in_cluster)
    &&& post.in_cluster == short
    &&& post.underrun_count == if short && !pre.in_cluster {
        crate::clock::spec_sat_add_u64(pre.underrun_count as int, 1)
    } else {
        pre.underrun_count as int
    }
}

/// Collapses consecutive short periods into one cluster: at most one
/// BufferUnderrun notification is owed per unbroken run of short periods.
pub struct UnderrunDebounce {
    pub in_cluster: bool,
    pub underrun_count: u64,
}

impl UnderrunDebounce {
    pub fn new() -> (r: Self)
        ensures
            !r.in_cluster,
            r.underrun_count == 0,
    {
        Self { in_cluster: false, underrun_count: 0 }
    }

    /// Record one period's outcome. The result says whether a notification
    /// is owed now: exactly at the first short period of a cluster.
    pub fn record(&mut self, short: bool) -> (emit: bool)
        ensures
            debounce_post(*old(self), short, *final(self), emit),
    {
        let emit = short && !self.in_cluster;
        if emit {
            self.underrun_count = if self.underrun_count == u64::MAX {
                u64::MAX
            } else {
                self.underrun_count + 1
            };
        }
        self.in_cluster = short;
        emit
    }
}

/// The state of the opened output stream. The cpal stream object and its
/// realtime thread live in the host layer; the engine consults and mutates
/// this model, and the host layer mirrors every change onto the device.
pub struct AudioOutput {
    pub format: AudioFormat,
    pub stream_open: bool,
    pub is_playing: bool,
    /// Callback volume in hundredths, [0, 100].
    pub volume_percent: u32,
}

impl AudioOutput {
    pub open spec fn wf(self) -> bool {
        &&& self.volume_percent <= 100
        &&& (self.is_playing ==> self.stream_open)
    }

    pub fn new(format: AudioFormat) -> (r: Result<Self, AudioError>)
        ensures
            r is Ok,
            r->Ok_0.wf(),
            r->Ok_0.format == format,
            !r->Ok_0.stream_open,
            !r->Ok_0.is_playing,
            r->Ok_0.volume_percent == 100,
    {
        Ok(Self { format, stream_open: false, is_playing: false, volume_percent: 100 })
    }

    /// Open the stream and start it; starting an open stream is a no-op.
    pub fn start(&mut self) -> (r: Result<(), AudioError>)
        requires
            old(self).wf(),
        ensures
            final(self).wf(),
            r is Ok,
            final(self).stream_open,
            final(self).is_playing,
            final(self).format == old(self).format,
            final(self).volume_percent == old(self).volume_percent,
    {
        self.stream_open = true;
        self.is_playing = true;
        Ok(())
    }

    /// Tear the stream down.
    pub fn stop(&mut self) -> (r: Result<(), AudioError>)
        requires
            old(self).wf(),
        ensures
            final(self).wf(),
            r is Ok,
            !final(self).stream_open,
            !final(self).is_playing,
            final(self).format == old(self).format,
            final(self).volume_percent == old(self).volume_percent,
    {
        self.stream_open = false;
        self.is_playing = false;
        Ok(())
    }

    /// Pause the running stream; the stream stays open.
    pub fn pause(&mut self) -> (r: Result<(), AudioError>)
        requires
            old(self).wf(),
        ensures
            final(self).wf(),
            r is Ok,
            !final(self).is_playing,
            final(self).stream_open == old(self).stream_open,
            final(self).format == old(self).format,
            final(self).volume_percent == old(self).volume_percent,
    {
        self.is_playing = false;
        Ok(())
    }

    /// Resume a paused stream; without an open stream nothing plays.
    pub fn resume(&mut self) -> (r: Result<(), AudioError>)
        requires
            old(self).wf(),
        ensures
            final(self).wf(),
            r is Ok,
            final(self).is_playing == old(self).stream_open,
            final(self).stream_open == old(self).stream_open,
            final(self).format == old(self).format,
            final(self).volume_percent == old(self).volume_percent,
    {
        if self.stream_open {
            self.is_playing = true;
        }
        Ok(())
    }

    /// Set the callback volume, clamped into [0, 100] hundredths — the
    /// output path never amplifies.
    pub fn set_volume(&mut self, volume_percent: i64) -> (r: Result<(), AudioError>)
        requires
            old(self).wf(),
        ensures
            final(self).wf(),
            r is Ok,
            final(self).volume_percent == crate::eq::spec_clamp(volume_percent as int, 0, 100),
            final(self).format == old(self).format,
            final(self).stream_open == old(self).stream_open,
            final(self).is_playing == old(self).is_playing,
    {
        self.volume_percent = if volume_percent < 0 {
            0
        } else if volume_percent > 100 {
            100
        } else {
            volume_percent as u32
        };
        Ok(())
    }

    pub fn get_volume(&self) -> (r: u32)
        ensures
            r == self.volume_percent,
    {
        self.volume_percent
    }

    pub fn is_playing(&self) -> (r: bool)
        ensures
            r == self.is_playing,
    {
        self.is_playing
    }

    pub fn get_format(&self) -> (r: Option<AudioFormat>)
        ensures
            r == Some(self.format),
    {
        Some(self.format)
    }
}

/// Law: over any run of periods, BufferUnderrun is owed exactly once per
/// maximal unbroken run of short periods — the first short period after a
/// full one emits, further consecutive short periods do not, and a full
/// period emits nothing and re-arms the debounce.
pub proof fn lemma_underrun_debounced(
    d0: UnderrunDebounce,
    d1: UnderrunDebounce,
    e1: bool,
    d2: UnderrunDebounce,
    e2: bool,
    d3: UnderrunDebounce,
    e3: bool,
)
    requires
        !d0.in_cluster,
        debounce_post(d0, true, d1, e1),
        debounce_post(d1, true, d2, e2),
        debounce_post(d2, false, d3, e3),
    ensures
        e1,
        !e2,
        !e3,
        !d3.in_cluster,
        d3.underrun_count == d1.underrun_count,
{
}

} // verus!
