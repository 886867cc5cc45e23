//! A local audio playback engine, verified with Verus.
//!
//! The core is the real-time playback pipeline: decoded frames travel from
//! the decoder through the DSP chain into a single-writer single-reader
//! byte ring that the output callback drains, governed by a transport state
//! machine, paced by a bounded buffer pool, and measured by an audio clock.
//! A bit-perfect negotiator picks the delivery format. The host layer —
//! file and device I/O, codecs, float sample kernels — surrounds this crate
//! and converses with it through plain values.
pub mod bitperfect;
pub mod buffer_pool;
pub mod cache;
pub mod clock;
pub mod config;
pub mod database;
pub mod decoder;
pub mod device;
pub mod dsp;
pub mod engine;
pub mod eq;
pub mod errors;
pub mod format;
pub mod metadata;
pub mod models;
pub mod output;
pub mod player;
pub mod protocol;
pub mod resampler;
pub mod resampler_engine;
pub mod scanner;
pub mod stream;
pub mod textutil;
pub mod time_source;
pub mod watch;
