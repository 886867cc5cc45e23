//! The byte pipeline: formats, buffers, the pool, the ring, the clock and
//! the output callback model.
use audio_core::buffer_pool::{AudioBuffer, AudioRingBuffer, BufferPool};
use audio_core::clock::{AudioClock, ClockStats, ClockSync};
use audio_core::format::{AudioFormat, SampleFormat};
use audio_core::output::{callback_fill, silence_byte, AudioOutput, UnderrunDebounce};

#[test]
fn format_sizes() {
    assert_eq!(SampleFormat::U8.bytes_per_sample(), 1);
    assert_eq!(SampleFormat::S16.bytes_per_sample(), 2);
    assert_eq!(SampleFormat::S24.bytes_per_sample(), 3);
    assert_eq!(SampleFormat::S32.bytes_per_sample(), 4);
    assert_eq!(SampleFormat::F32.bytes_per_sample(), 4);
    assert_eq!(SampleFormat::F64.bytes_per_sample(), 8);
    assert!(SampleFormat::F32.is_float());
    assert!(SampleFormat::S24.is_integer());
    let f = AudioFormat::new(44100, 2, SampleFormat::S16);
    assert_eq!(f.bytes_per_frame(), 4);
    assert_eq!(f.frames_per_second(), 44100);
    assert_eq!(f.bytes_per_second(), 176400);
    assert_eq!(AudioFormat::default(), f);
}

#[test]
fn buffer_is_zeroed_and_sized() {
    let f = AudioFormat::new(48000, 2, SampleFormat::S24);
    let b = AudioBuffer::new(f, 128);
    assert_eq!(b.capacity(), 128 * 6);
    assert_eq!(b.frames(), 128);
    assert_eq!(b.format(), f);
    assert!(b.data().iter().all(|&x| x == 0));
}

#[test]
fn buffer_store_copies_prefix() {
    let f = AudioFormat::new(8000, 1, SampleFormat::U8);
    let mut b = AudioBuffer::new(f, 4);
    let stored = b.store(&[9, 8, 7]);
    assert_eq!(stored, 3);
    assert_eq!(b.data(), &[9, 8, 7, 0]);
}

#[test]
fn pool_acquire_returns_zeroed_buffer_of_pool_capacity() {
    let f = AudioFormat::default();
    let mut pool = BufferPool::new(f, 64, 2);
    assert_eq!(pool.available_count(), 2);
    assert_eq!(pool.total_count(), 2);
    let b = pool.acquire().unwrap();
    assert_eq!(b.capacity(), 64 * 4);
    assert!(b.data().iter().all(|&x| x == 0));
    assert_eq!(pool.available_count(), 1);
}

#[test]
fn pool_acquire_release_restores_available_count() {
    let f = AudioFormat::default();
    let mut pool = BufferPool::new(f, 16, 3);
    let before = pool.available_count();
    let mut b = pool.acquire().unwrap();
    b.data_mut()[0] = 0xAB;
    pool.release(b);
    assert_eq!(pool.available_count(), before);
    // the returned buffer was zeroed on release
    let again = pool.acquire().unwrap();
    assert!(again.data().iter().all(|&x| x == 0));
}

#[test]
fn pool_acquire_when_empty_returns_nothing_and_keeps_state() {
    let f = AudioFormat::default();
    let mut pool = BufferPool::new(f, 16, 1);
    let held = pool.acquire().unwrap();
    assert_eq!(pool.available_count(), 0);
    assert!(pool.acquire().is_none());
    assert_eq!(pool.available_count(), 0);
    assert_eq!(pool.total_count(), 1);
    pool.release(held);
    assert_eq!(pool.available_count(), 1);
}

#[test]
fn pool_drops_foreign_buffers() {
    let f = AudioFormat::default();
    let mut pool = BufferPool::new(f, 16, 1);
    // a buffer of the wrong capacity is dropped, not pooled
    let alien = AudioBuffer::new(f, 8);
    pool.release(alien);
    assert_eq!(pool.available_count(), 1);
}

#[test]
fn ring_write_then_read_round_trip() {
    let mut ring = AudioRingBuffer::new(16);
    let data: Vec<u8> = (1..=10).collect();
    assert_eq!(ring.write(&data), 10);
    assert_eq!(ring.len(), 10);
    let mut out = vec![0u8; 10];
    assert_eq!(ring.read(&mut out), 10);
    assert_eq!(out, data);
    assert!(ring.is_empty());
}

#[test]
fn ring_write_beyond_free_takes_exactly_free_then_drains() {
    let mut ring = AudioRingBuffer::new(4);
    let data = [1u8, 2, 3, 4, 5, 6];
    let written = ring.write(&data);
    assert_eq!(written, 4);
    assert!(ring.is_full());
    assert_eq!(ring.available(), 0);
    let mut out = vec![0u8; 8];
    let n = ring.read(&mut out);
    assert_eq!(n, 4);
    assert_eq!(&out[..4], &[1, 2, 3, 4]);
    assert!(ring.is_empty());
}

#[test]
fn ring_reads_observe_writes_in_order() {
    let mut ring = AudioRingBuffer::new(8);
    ring.write(&[1, 2, 3]);
    let mut out = vec![0u8; 2];
    assert_eq!(ring.read(&mut out), 2);
    assert_eq!(out, vec![1, 2]);
    ring.write(&[4, 5]);
    let mut rest = vec![0u8; 8];
    let n = ring.read(&mut rest);
    assert_eq!(n, 3);
    assert_eq!(&rest[..3], &[3, 4, 5]);
}

#[test]
fn ring_clear_empties() {
    let mut ring = AudioRingBuffer::new(8);
    ring.write(&[1, 2, 3]);
    ring.clear();
    assert!(ring.is_empty());
    assert_eq!(ring.capacity(), 8);
    assert_eq!(ring.available(), 8);
}

#[test]
fn clock_stats_zero_at_start() {
    let f = AudioFormat::default();
    let mut clock = AudioClock::new(f);
    assert!(!clock.is_running());
    assert!(clock.stats_at(5).is_none());
    clock.start_at(1_000);
    let stats = clock.stats_at(1_000).unwrap();
    assert_eq!(stats.drift_ppm, 0);
    assert_eq!(stats.jitter_ns, 0);
    assert_eq!(stats.buffer_level_permille, 0);
}

#[test]
fn clock_jitter_zero_with_single_update() {
    let f = AudioFormat::new(1000, 2, SampleFormat::S16);
    let mut clock = AudioClock::new(f);
    clock.start_at(0);
    // half a second after start: 500 frames expected, 500 delivered
    clock.update_at(500, 500_000_000);
    let stats = clock.stats_at(500_000_000).unwrap();
    assert_eq!(stats.jitter_ns, 0);
    assert_eq!(stats.drift_ppm, 0);
}

#[test]
fn clock_measures_negative_drift() {
    let f = AudioFormat::new(1000, 2, SampleFormat::S16);
    let mut clock = AudioClock::new(f);
    clock.start_at(0);
    clock.update_at(500, 1_000_000_000);
    // one second elapsed at 1 kHz: 1000 frames expected, 500 seen
    let stats = clock.stats_at(1_000_000_000).unwrap();
    assert_eq!(stats.drift_ppm, -500_000);
}

#[test]
fn clock_position_follows_frames() {
    let f = AudioFormat::new(1000, 2, SampleFormat::S16);
    let mut clock = AudioClock::new(f);
    assert!(clock.get_position().is_none());
    clock.start_at(0);
    clock.update_at(2500, 1);
    assert_eq!(clock.get_position(), Some(2500));
    clock.reset_at(7);
    assert_eq!(clock.get_position(), Some(0));
    assert!(clock.is_running());
    clock.stop();
    assert!(!clock.is_running());
}

#[test]
fn clock_sync_correction_threshold() {
    let sync = ClockSync::new().with_threshold(100);
    let calm = ClockStats { drift_ppm: 50, jitter_ns: 0, buffer_level_permille: 0 };
    let wild = ClockStats { drift_ppm: -250, jitter_ns: 0, buffer_level_permille: 0 };
    assert!(!sync.needs_correction(&calm));
    assert_eq!(sync.calculate_correction(&calm), 0);
    assert!(sync.needs_correction(&wild));
    assert_eq!(sync.calculate_correction(&wild), 250);
}

#[test]
fn callback_pads_short_period_with_silence() {
    let mut ring = AudioRingBuffer::new(8);
    ring.write(&[10, 20]);
    let (out, underrun) = callback_fill(&mut ring, 6, 0);
    assert!(underrun);
    assert_eq!(out, vec![10, 20, 0, 0, 0, 0]);
    // a full period is no underrun
    ring.write(&[1, 2, 3]);
    let (out2, underrun2) = callback_fill(&mut ring, 2, 0);
    assert!(!underrun2);
    assert_eq!(out2, vec![1, 2]);
}

#[test]
fn silence_depends_on_encoding() {
    assert_eq!(silence_byte(SampleFormat::U8), 0x80);
    assert_eq!(silence_byte(SampleFormat::S16), 0);
    assert_eq!(silence_byte(SampleFormat::F32), 0);
}

#[test]
fn underrun_debounce_emits_once_per_cluster() {
    let mut d = UnderrunDebounce::new();
    assert!(d.record(true));
    assert!(!d.record(true));
    assert!(!d.record(true));
    assert!(!d.record(false));
    assert!(d.record(true));
    assert_eq!(d.underrun_count, 2);
}

#[test]
fn output_volume_clamps_to_unity() {
    let f = AudioFormat::default();
    let mut out = AudioOutput::new(f).unwrap();
    out.set_volume(150).unwrap();
    assert_eq!(out.get_volume(), 100);
    out.set_volume(-5).unwrap();
    assert_eq!(out.get_volume(), 0);
    out.set_volume(73).unwrap();
    assert_eq!(out.get_volume(), 73);
}

#[test]
fn output_stream_state_machine() {
    let f = AudioFormat::default();
    let mut out = AudioOutput::new(f).unwrap();
    assert!(!out.is_playing());
    out.start().unwrap();
    assert!(out.is_playing());
    out.pause().unwrap();
    assert!(!out.is_playing());
    out.resume().unwrap();
    assert!(out.is_playing());
    out.stop().unwrap();
    assert!(!out.is_playing());
    assert_eq!(out.get_format(), Some(f));
}
