//! The engine: owns the transport, clock, pool, ring and DSP chain, and
//! turns commands into state transitions and pipeline actions.
//!
//! The host layer runs the producer loop: it receives commands from its
//! channel, calls `handle_command`, performs the returned directive (the
//! outside work — opening a container, repositioning it, shutting down),
//! and reports outcomes back through `finish_load` and the producer-step
//! functions. Every decision in between is made and verified here.
use vstd::prelude::*;
use crate::buffer_pool::{pool_acquire_post, pool_release_post, AudioBuffer, AudioRingBuffer,
    BufferPool};
use crate::clock::{AudioClock, ClockStats, ClockSync};
use crate::config::AudioConfig;
use crate::decoder::Decoder;
use crate::dsp::{clamp_percent, DSPChain, Processor};
use crate::eq::spec_clamp;
use crate::errors::AudioError;
use crate::format::AudioFormat;
use crate::player::{Player, PlayerEvent, PlayerState};

verus! {

/// Commands the engine takes from the control plane. Times are in
/// milliseconds, volumes in hundredths, EQ gains in whole decibels.
#[derive(Debug, Clone)]
pub enum EngineCommand {
    LoadTrack(String),
    Play,
    Pause,
    Stop,
    Seek(u64),
    SetVolume(i64),
    SetFormat(AudioFormat),
    EnableDSP(bool),
    SetEQ(Vec<i32>),
    Shutdown,
}

/// Outside work a command asks of the host layer.
#[derive(Debug, Clone, PartialEq, Eq)]
pub enum EngineDirective {
    Idle,
    OpenDecoder(String),
    SeekDecoder(u64),
    Shutdown,
}

/// Once an underrun has persisted this long while Playing, the transport
/// moves to Buffering.
pub open spec fn underrun_buffering_threshold_ms() -> int {
    150
}

pub struct AudioEngine {
    pub player: Player,
    pub clock: AudioClock,
    pub buffer_pool: BufferPool,
    pub ring_buffer: AudioRingBuffer,
    pub clock_sync: ClockSync,
    pub config: AudioConfig,
    pub decoder: Option<Decoder>,
    pub dsp: DSPChain,
    /// Master volume in hundredths, [0, 200]; the output callback clamps
    /// further to [0, 100].
    pub volume_percent: u32,
    /// Bytes produced but not yet taken by the ring, kept for the next
    /// producer step.
    pub pending: Vec<u8>,
    pub running: bool,
}

/// State change of the Buffering recovery judgement: while Buffering, once
/// the ring has refilled to the configured target the transport returns to
/// Playing and the clock starts, publishing StateChanged(Playing); below
/// the target, and outside Buffering, nothing changes. The rest of the
/// engine is never touched.
pub open spec fn buffering_recovery_post(pre: AudioEngine, post: AudioEngine) -> bool {
    &&& (pre.player.state == PlayerState::Buffering && pre.spec_fill_permille()
        >= pre.config.target_buffer_level_permille) ==> {
        &&& post.player.state == PlayerState::Playing
        &&& post.clock.spec_is_running()
        &&& post.player.events@ == pre.player.events@.push(
            PlayerEvent::StateChanged(PlayerState::Playing),
        )
        &&& post.player.position_ms == pre.player.position_ms
        &&& post.player.current_format == pre.player.current_format
    }
    &&& (pre.player.state == PlayerState::Buffering && pre.spec_fill_permille()
        < pre.config.target_buffer_level_permille) ==> post.player == pre.player && post.clock
        == pre.clock
    &&& pre.player.state != PlayerState::Buffering ==> post.player == pre.player && post.clock
        == pre.clock
    &&& post.ring_buffer == pre.ring_buffer
    &&& post.buffer_pool == pre.buffer_pool
    &&& post.decoder == pre.decoder
    &&& post.config == pre.config
    &&& post.pending == pre.pending
    &&& post.volume_percent == pre.volume_percent
    &&& post.running == pre.running
}

impl AudioEngine {
    pub open spec fn wf(self) -> bool {
        &&& self.player.wf()
        &&& self.clock.wf()
        &&& self.buffer_pool.wf()
        &&& self.ring_buffer.wf()
        &&& self.volume_percent <= 200
        &&& self.decoder is Some ==> self.decoder->0.format.sample_rate >= 1
    }

    /// Ring fill level in thousandths of capacity.
    pub open spec fn spec_fill_permille(self) -> int {
        if self.ring_buffer.capacity > 0 {
            (self.ring_buffer.buffer@.len() as int) * 1000 / (self.ring_buffer.capacity as int)
        } else {
            0
        }
    }

    /// Build the engine from a validated configuration; an invalid one is
    /// refused with the validator's error.
    pub fn new(config: AudioConfig) -> (r: Result<Self, AudioError>)
        ensures
            r is Ok <==> config.spec_valid(),
            r is Err ==> r->Err_0 is InvalidParameter,
            r is Ok ==> {
                let e = r->Ok_0;
                &&& e.wf()
                &&& e.player.state == PlayerState::Stopped
                &&& !e.clock.spec_is_running()
                &&& e.buffer_pool.spec_available() == config.buffer_pool_size
                &&& e.buffer_pool.pool_size == config.buffer_pool_size
                &&& e.buffer_pool.buffer_size_frames == config.buffer_size_frames
                &&& e.ring_buffer.capacity == config.ring_buffer_size
                &&& e.ring_buffer.buffer@ == Seq::<u8>::empty()
                &&& e.decoder is None
                &&& e.volume_percent == config.output.volume_percent
                &&& e.pending@ == Seq::<u8>::empty()
                &&& e.running
            },
    {
        if let Err(e) = config.validate() {
            return Err(e);
        }
        let format = AudioFormat::default();
        proof {
            assert(format.spec_bytes_per_frame() == 4);
            assert(config.buffer_size_frames * 4 <= usize::MAX) by (nonlinear_arith)
                requires
                    config.buffer_size_frames <= 0x1000_0000,
            ;
        }
        let buffer_pool = BufferPool::new(format, config.buffer_size_frames,
            config.buffer_pool_size);
        let ring_buffer = AudioRingBuffer::new(config.ring_buffer_size);
        let clock = AudioClock::new(format);
        let clock_sync = ClockSync::new();
        let player = Player::new();
        let volume_percent = config.output.volume_percent;
        Ok(Self {
            player,
            clock,
            buffer_pool,
            ring_buffer,
            clock_sync,
            config,
            decoder: None,
            dsp: DSPChain::new(),
            volume_percent,
            pending: Vec::new(),
            running: true,
        })
    }

    /// Apply one command at wall time `now_ns`, returning the outside work
    /// the host layer owes:
    /// - LoadTrack stops the transport as Stop does — clock stopped and
    ///   zeroed, ring cleared, pending bytes dropped — and asks for the
    ///   container;
    /// - Play enters Playing from Stopped or Paused and starts the clock;
    ///   from Playing it restarts the clock; from Buffering it completes
    ///   the recovery exactly when the ring has reached the target level;
    ///   from Error nothing changes;
    /// - Pause leaves Playing and stops the clock;
    /// - Stop rewinds: transport Stopped, clock stopped and zeroed, ring
    ///   cleared, pending bytes dropped;
    /// - Seek publishes exactly one PositionChanged, clears ring and
    ///   pending, zeroes the clock, repositions the decoder model and asks
    ///   the host layer to reposition the container;
    /// - SetVolume clamps into [0, 200] hundredths;
    /// - SetFormat is reserved and does nothing;
    /// - EnableDSP switches the chain;
    /// - SetEQ writes the given gains into the chain's first equalizer
    ///   stage, clamped band by band;
    /// - Shutdown stops the producer loop.
    /// Each clause below also pins the events the command publishes.
    pub fn handle_command(&mut self, cmd: &EngineCommand, now_ns: u64) -> (directive:
        EngineDirective)
        requires
            old(self).wf(),
        ensures
            final(self).wf(),
            final(self).config == old(self).config,
            match cmd {
                EngineCommand::LoadTrack(path) => {
                    &&& final(self).player.state == PlayerState::Stopped
                    &&& directive == EngineDirective::OpenDecoder(*path)
                    &&& final(self).decoder == old(self).decoder
                    &&& !final(self).clock.spec_is_running()
                    &&& final(self).clock.frames_played == 0
                    &&& final(self).ring_buffer.buffer@ == Seq::<u8>::empty()
                    &&& final(self).pending@ == Seq::<u8>::empty()
                    &&& old(self).player.state != PlayerState::Stopped ==> {
                        &&& final(self).player.position_ms == 0
                        &&& final(self).player.events@ == old(self).player.events@.push(
                            PlayerEvent::StateChanged(PlayerState::Stopped),
                        ).push(PlayerEvent::PositionChanged(0))
                    }
                    &&& old(self).player.state == PlayerState::Stopped
                        ==> final(self).player == old(self).player
                },
                EngineCommand::Play => {
                    &&& directive == EngineDirective::Idle
                    &&& (old(self).player.state == PlayerState::Stopped || old(
                        self,
                    ).player.state == PlayerState::Paused) ==> {
                        &&& final(self).player.state == PlayerState::Playing
                        &&& final(self).clock.spec_is_running()
                        &&& final(self).player.events@ == old(self).player.events@.push(
                            PlayerEvent::StateChanged(PlayerState::Playing),
                        )
                    }
                    &&& old(self).player.state == PlayerState::Playing ==> {
                        &&& final(self).player == old(self).player
                        &&& final(self).clock.spec_is_running()
                    }
                    &&& old(self).player.state == PlayerState::Error ==> {
                        &&& final(self).player == old(self).player
                        &&& final(self).clock == old(self).clock
                    }
                    &&& old(self).player.state == PlayerState::Buffering
                        ==> buffering_recovery_post(*old(self), *final(self))
                },
                EngineCommand::Pause => {
                    &&& directive == EngineDirective::Idle
                    &&& old(self).player.state == PlayerState::Playing ==> {
                        &&& final(self).player.state == PlayerState::Paused
                        &&& !final(self).clock.spec_is_running()
                        &&& final(self).player.events@ == old(self).player.events@.push(
                            PlayerEvent::StateChanged(PlayerState::Paused),
                        )
                    }
                    &&& old(self).player.state == PlayerState::Paused ==> {
                        &&& final(self).player == old(self).player
                        &&& !final(self).clock.spec_is_running()
                    }
                    &&& (old(self).player.state != PlayerState::Playing && old(
                        self,
                    ).player.state != PlayerState::Paused) ==> {
                        &&& final(self).player == old(self).player
                        &&& final(self).clock == old(self).clock
                    }
                },
                EngineCommand::Stop => {
                    &&& directive == EngineDirective::Idle
                    &&& final(self).player.state == PlayerState::Stopped
                    &&& !final(self).clock.spec_is_running()
                    &&& final(self).clock.frames_played == 0
                    &&& final(self).ring_buffer.buffer@ == Seq::<u8>::empty()
                    &&& final(self).pending@ == Seq::<u8>::empty()
                    &&& old(self).player.state != PlayerState::Stopped ==> {
                        &&& final(self).player.position_ms == 0
                        &&& final(self).player.events@ == old(self).player.events@.push(
                            PlayerEvent::StateChanged(PlayerState::Stopped),
                        ).push(PlayerEvent::PositionChanged(0))
                    }
                    &&& old(self).player.state == PlayerState::Stopped
                        ==> final(self).player == old(self).player
                },
                EngineCommand::Seek(pos_ms) => {
                    &&& final(self).player.position_ms == pos_ms
                    &&& final(self).player.events@ == old(self).player.events@.push(
                        PlayerEvent::PositionChanged(*pos_ms),
                    )
                    &&& final(self).player.state == old(self).player.state
                    &&& final(self).ring_buffer.buffer@ == Seq::<u8>::empty()
                    &&& final(self).pending@ == Seq::<u8>::empty()
                    &&& final(self).clock.frames_played == 0
                    &&& match old(self).decoder {
                        Some(d) => {
                            &&& directive == EngineDirective::SeekDecoder(
                                crate::clock::spec_cap_u64(
                                    pos_ms * d.format.sample_rate / 1000,
                                ) as u64,
                            )
                            &&& final(self).decoder is Some
                            &&& final(self).decoder->0.current_frame
                                == crate::clock::spec_cap_u64(
                                pos_ms * d.format.sample_rate / 1000,
                            )
                        },
                        None => directive == EngineDirective::Idle && final(self).decoder is None,
                    }
                },
                EngineCommand::SetVolume(v) => {
                    &&& directive == EngineDirective::Idle
                    &&& final(self).volume_percent == spec_clamp(*v as int, 0, 200)
                    &&& final(self).player == old(self).player
                },
                EngineCommand::SetFormat(_) => {
                    &&& directive == EngineDirective::Idle
                    &&& final(self).player == old(self).player
                    &&& final(self).decoder == old(self).decoder
                },
                EngineCommand::EnableDSP(enable) => {
                    &&& directive == EngineDirective::Idle
                    &&& final(self).dsp.enabled == enable
                    &&& final(self).dsp.processors@ == old(self).dsp.processors@
                    &&& final(self).player == old(self).player
                },
                EngineCommand::SetEQ(gains) => {
                    &&& directive == EngineDirective::Idle
                    &&& final(self).player == old(self).player
                    &&& final(self).dsp.enabled == old(self).dsp.enabled
                    &&& (forall|j: int| 0 <= j < old(self).dsp.processors@.len()
                        ==> !(#[trigger] old(self).dsp.processors@[j] is Equalizer))
                        ==> final(self).dsp.processors@ == old(self).dsp.processors@
                    &&& (exists|j: int| 0 <= j < old(self).dsp.processors@.len()
                        && #[trigger] old(self).dsp.processors@[j] is Equalizer) ==> exists|j: int| {
                        &&& 0 <= j < old(self).dsp.processors@.len()
                        &&& (#[trigger] old(self).dsp.processors@[j]) is Equalizer
                        &&& forall|k: int| 0 <= k < j
                            ==> !(#[trigger] old(self).dsp.processors@[k] is Equalizer)
                        &&& final(self).dsp.processors@.len() == old(self).dsp.processors@.len()
                        &&& forall|k: int| 0 <= k < old(self).dsp.processors@.len() && k != j
                            ==> #[trigger] final(self).dsp.processors@[k] == old(
                            self,
                        ).dsp.processors@[k]
                        &&& final(self).dsp.processors@[j] is Equalizer
                        &&& ({
                            let before = old(self).dsp.processors@[j]->Equalizer_0;
                            let after = final(self).dsp.processors@[j]->Equalizer_0;
                            &&& after.bands@.len() == before.bands@.len()
                            &&& forall|i: int| 0 <= i < gains@.len() && i < before.bands@.len()
                                ==> #[trigger] after.bands@[i] == (crate::eq::EQBand {
                                    gain_db: spec_clamp(gains@[i] as int, -20, 20) as i32,
                                    ..before.bands@[i]
                                })
                            &&& forall|i: int| gains@.len() <= i < before.bands@.len()
                                ==> #[trigger] after.bands@[i] == before.bands@[i]
                        })
                    }
                },
                EngineCommand::Shutdown => {
                    &&& directive == EngineDirective::Shutdown
                    &&& !final(self).running
                    &&& final(self).player == old(self).player
                },
            },
    {
        match cmd {
            EngineCommand::LoadTrack(path) => {
                let _ = self.player.stop();
                self.clock.stop();
                self.clock.reset_at(now_ns);
                self.ring_buffer.clear();
                self.pending = Vec::new();
                EngineDirective::OpenDecoder(path.clone())
            }
            EngineCommand::Play => {
                if matches!(self.player.state(), PlayerState::Buffering) {
                    self.check_buffering_recovery(now_ns);
                } else {
                    match self.player.play() {
                        Ok(_) => {
                            self.clock.start_at(now_ns);
                        }
                        Err(_) => {}
                    }
                }
                EngineDirective::Idle
            }
            EngineCommand::Pause => {
                match self.player.pause() {
                    Ok(_) => {
                        self.clock.stop();
                    }
                    Err(_) => {}
                }
                EngineDirective::Idle
            }
            EngineCommand::Stop => {
                let _ = self.player.stop();
                self.clock.stop();
                self.clock.reset_at(now_ns);
                self.ring_buffer.clear();
                self.pending = Vec::new();
                EngineDirective::Idle
            }
            EngineCommand::Seek(pos_ms) => {
                let _ = self.player.seek(*pos_ms);
                self.ring_buffer.clear();
                self.pending = Vec::new();
                self.clock.reset_at(now_ns);
                match &mut self.decoder {
                    Some(d) => {
                        proof {
                            crate::clock::lemma_u64_u32_product_fits(
                                *pos_ms as int,
                                d.format.sample_rate as int,
                            );
                        }
                        let frame_calc: u128 = (*pos_ms as u128) * (d.format.sample_rate as u128)
                            / 1000u128;
                        let frame: u64 = if frame_calc > u64::MAX as u128 {
                            u64::MAX
                        } else {
                            frame_calc as u64
                        };
                        let _ = d.seek(frame);
                        EngineDirective::SeekDecoder(frame)
                    }
                    None => EngineDirective::Idle,
                }
            }
                        EngineCommand::SetVolume(v) => {
                self.volume_percent = clamp_percent(*v);
                EngineDirective::Idle
            }
            EngineCommand::SetFormat(_) => EngineDirective::Idle,
            EngineCommand::EnableDSP(enable) => {
                self.dsp.set_enabled(*enable);
                EngineDirective::Idle
            }
            EngineCommand::SetEQ(gains) => {
                self.apply_eq_gains(gains);
                EngineDirective::Idle
            }
            EngineCommand::Shutdown => {
                self.running = false;
                EngineDirective::Shutdown
            }
        }
    }

    /// Write the given gains, clamped to [-20, 20] dB, into the chain's
    /// first equalizer stage, band by band as far as both lists reach; a
    /// chain without an equalizer is untouched.
    fn apply_eq_gains(&mut self, gains: &Vec<i32>)
        requires
            old(self).wf(),
        ensures
            final(self).wf(),
            final(self).player == old(self).player,
            final(self).clock == old(self).clock,
            final(self).config == old(self).config,
            final(self).decoder == old(self).decoder,
            final(self).running == old(self).running,
            final(self).volume_percent == old(self).volume_percent,
            final(self).buffer_pool == old(self).buffer_pool,
            final(self).ring_buffer == old(self).ring_buffer,
            final(self).pending == old(self).pending,
            final(self).dsp.enabled == old(self).dsp.enabled,
            (forall|j: int| 0 <= j < old(self).dsp.processors@.len()
                ==> !(#[trigger] old(self).dsp.processors@[j] is Equalizer))
                ==> final(self).dsp.processors@ == old(self).dsp.processors@,
            (exists|j: int| 0 <= j < old(self).dsp.processors@.len()
                && #[trigger] old(self).dsp.processors@[j] is Equalizer) ==> exists|j: int| {
                &&& 0 <= j < old(self).dsp.processors@.len()
                &&& (#[trigger] old(self).dsp.processors@[j]) is Equalizer
                &&& forall|k: int| 0 <= k < j
                    ==> !(#[trigger] old(self).dsp.processors@[k] is Equalizer)
                &&& final(self).dsp.processors@.len() == old(self).dsp.processors@.len()
                &&& forall|k: int| 0 <= k < old(self).dsp.processors@.len() && k != j
                    ==> #[trigger] final(self).dsp.processors@[k] == old(self).dsp.processors@[k]
                &&& final(self).dsp.processors@[j] is Equalizer
                &&& ({
                    let before = old(self).dsp.processors@[j]->Equalizer_0;
                    let after = final(self).dsp.processors@[j]->Equalizer_0;
                    &&& after.bands@.len() == before.bands@.len()
                    &&& forall|i: int| 0 <= i < gains@.len() && i < before.bands@.len()
                        ==> #[trigger] after.bands@[i] == (crate::eq::EQBand {
                            gain_db: spec_clamp(gains@[i] as int, -20, 20) as i32,
                            ..before.bands@[i]
                        })
                    &&& forall|i: int| gains@.len() <= i < before.bands@.len()
                        ==> #[trigger] after.bands@[i] == before.bands@[i]
                })
            },
    {
        let n = self.dsp.processor_count();
        let mut i: usize = 0;
        while i < n
            invariant
                i <= n,
                n == self.dsp.processors@.len(),
                self.dsp.processors@ == old(self).dsp.processors@,
                self.dsp.enabled == old(self).dsp.enabled,
                self.player == old(self).player,
                self.clock == old(self).clock,
                self.config == old(self).config,
                self.decoder == old(self).decoder,
                self.running == old(self).running,
                self.volume_percent == old(self).volume_percent,
                self.buffer_pool == old(self).buffer_pool,
                self.ring_buffer == old(self).ring_buffer,
                self.pending == old(self).pending,
                old(self).wf(),
                forall|k: int| 0 <= k < i
                    ==> !(#[trigger] self.dsp.processors@[k] is Equalizer),
            decreases n - i,
        {
            let is_eq = matches!(self.dsp.get_processor(i), Some(Processor::Equalizer(_)));
            if is_eq {
                let mut p = self.dsp.processors.remove(i);
                if let Processor::Equalizer(eq) = &mut p {
                    eq.set_gains(gains);
                }
                self.dsp.processors.insert(i, p);
                proof {
                    assert(old(self).dsp.processors@[i as int] is Equalizer);
                    assert(self.dsp.processors@.len() == old(self).dsp.processors@.len());
                }
                return ;
            }
            i = i + 1;
        }
    }

    /// The host layer answers LoadTrack. Success installs the decoder and
    /// its format and publishes TrackChanged; failure publishes the error
    /// and the transport stays where LoadTrack left it (Stopped), with the
    /// previous decoder kept.
    pub fn finish_load(&mut self, path: String, outcome: Result<Decoder, AudioError>)
        requires
            old(self).wf(),
            outcome is Ok ==> outcome->Ok_0.format.sample_rate >= 1,
        ensures
            final(self).wf(),
            final(self).player.state == old(self).player.state,
            final(self).config == old(self).config,
            match outcome {
                Ok(d) => {
                    &&& final(self).decoder == Some(d)
                    &&& final(self).player.current_format == Some(d.format)
                    &&& final(self).player.events@ == old(self).player.events@.push(
                        PlayerEvent::TrackChanged(path),
                    )
                },
                Err(_) => {
                    &&& final(self).decoder == old(self).decoder
                    &&& final(self).player.events@.len() == old(self).player.events@.len() + 1
                    &&& final(self).player.events@.last() is Error
                    &&& final(self).player.events@.take(old(self).player.events@.len() as int)
                        == old(self).player.events@
                },
            },
    {
        match outcome {
            Ok(d) => {
                self.player.set_format(d.format());
                self.decoder = Some(d);
                self.player.events.push(PlayerEvent::TrackChanged(path));
                proof {
                    assert(self.player.wf());
                }
            }
            Err(e) => {
                let message = e.message();
                self.player.events.push(PlayerEvent::Error(message));
                proof {
                    assert(self.player.wf());
                    assert(self.player.events@.take(old(self).player.events@.len() as int)
                        =~= old(self).player.events@);
                }
            }
        }
    }

    /// Ring fill level in thousandths of capacity.
    pub fn buffer_level_permille(&self) -> (r: u32)
        requires
            self.wf(),
        ensures
            r == self.spec_fill_permille(),
            r <= 1000,
    {
        let cap = self.ring_buffer.capacity();
        if cap == 0 {
            return 0;
        }
        let len = self.ring_buffer.len();
        let p128: u128 = (len as u128) * 1000u128 / (cap as u128);
        proof {
            assert((self.ring_buffer.buffer@.len() as int) * 1000 / (self.ring_buffer.capacity as int)
                <= 1000) by (nonlinear_arith)
                requires
                    0 < self.ring_buffer.capacity,
                    self.ring_buffer.buffer@.len() <= self.ring_buffer.capacity,
            ;
        }
        p128 as u32
    }

    /// The producer decodes more exactly while the transport is Playing and
    /// the ring sits below the configured target fill level.
    pub fn needs_refill(&self) -> (r: bool)
        requires
            self.wf(),
        ensures
            r == (self.player.state == PlayerState::Playing && self.spec_fill_permille()
                < self.config.target_buffer_level_permille),
    {
        if !self.player.is_playing() {
            return false;
        }
        let level = self.buffer_level_permille();
        level < self.config.target_buffer_level_permille
    }

    /// Take a zeroed buffer from the pool for the decoder to fill; nothing
    /// when the pool is empty.
    pub fn acquire_buffer(&mut self) -> (r: Option<AudioBuffer>)
        requires
            old(self).wf(),
        ensures
            final(self).wf(),
            pool_acquire_post(old(self).buffer_pool, final(self).buffer_pool, r),
            final(self).player == old(self).player,
            final(self).ring_buffer == old(self).ring_buffer,
            final(self).pending == old(self).pending,
    {
        self.buffer_pool.acquire()
    }

    /// Return a buffer to the pool.
    pub fn release_buffer(&mut self, buffer: AudioBuffer)
        requires
            old(self).wf(),
        ensures
            final(self).wf(),
            pool_release_post(
                old(self).buffer_pool,
                buffer.frames as int,
                buffer.data@.len() as int,
                final(self).buffer_pool,
            ),
            final(self).player == old(self).player,
            final(self).ring_buffer == old(self).ring_buffer,
            final(self).pending == old(self).pending,
    {
        self.buffer_pool.release(buffer)
    }

    /// Account for a decode of `frames` frames against the decoder model.
    /// At the end of the stream (`frames == 0`) the position is untouched.
    pub fn record_decoded(&mut self, frames: u64)
        requires
            old(self).wf(),
        ensures
            final(self).wf(),
            match old(self).decoder {
                Some(d) => final(self).decoder is Some
                    && final(self).decoder->0.current_frame == crate::clock::spec_sat_add_u64(
                    d.current_frame as int,
                    frames as int,
                ) && final(self).decoder->0.format == d.format,
                None => final(self).decoder is None,
            },
            final(self).player == old(self).player,
            final(self).ring_buffer == old(self).ring_buffer,
    {
        match &mut self.decoder {
            Some(d) => d.record_decoded(frames),
            None => {}
        }
    }

    /// Feed produced bytes toward the ring: bytes still pending from the
    /// last step go first, then `data`; whatever the ring cannot take now
    /// stays pending for the next step. Returns how many bytes entered the
    /// ring.
    pub fn push_to_ring(&mut self, data: &Vec<u8>) -> (written: usize)
        requires
            old(self).wf(),
        ensures
            final(self).wf(),
            ({
                let stream = old(self).pending@ + data@;
                let w = vstd::math::min(
                    stream.len() as int,
                    old(self).ring_buffer.capacity - old(self).ring_buffer.buffer@.len(),
                );
                &&& written == w
                &&& final(self).ring_buffer.buffer@ == old(self).ring_buffer.buffer@
                    + stream.take(w)
                &&& final(self).pending@ == stream.skip(w)
                &&& final(self).ring_buffer.capacity == old(self).ring_buffer.capacity
            }),
            final(self).player == old(self).player,
            final(self).buffer_pool == old(self).buffer_pool,
    {
        let mut stream: Vec<u8> = Vec::new();
        std::mem::swap(&mut stream, &mut self.pending);
        let ghost pend = stream@;
        append_bytes(&mut stream, data);
        let written = self.ring_buffer.write(stream.as_slice());
        let rest = split_off_front(&stream, written);
        self.pending = rest;
        proof {
            let s = pend + data@;
            let w = vstd::math::min(
                s.len() as int,
                old(self).ring_buffer.capacity - old(self).ring_buffer.buffer@.len(),
            );
            assert(stream@ == s);
            assert(written == w);
            assert(self.pending@ =~= s.skip(w));
        }
        written
    }

    /// End of stream: the decoder produced nothing. The transport stops and
    /// the clock with it; the ring keeps draining what remains.
    pub fn handle_end_of_stream(&mut self)
        requires
            old(self).wf(),
        ensures
            final(self).wf(),
            final(self).player.state == PlayerState::Stopped,
            !final(self).clock.spec_is_running(),
            final(self).ring_buffer == old(self).ring_buffer,
            final(self).decoder == old(self).decoder,
    {
        let _ = self.player.stop();
        self.clock.stop();
    }

    /// The output callback reported a short period that has lasted
    /// `persisted_ms` so far. Every report publishes BufferUnderrun; one
    /// that has persisted past the threshold while Playing moves the
    /// transport to Buffering, publishing StateChanged(Buffering), and
    /// stops the clock — while Buffering the clock does not advance.
    pub fn report_underrun(&mut self, persisted_ms: u64)
        requires
            old(self).wf(),
        ensures
            final(self).wf(),
            (old(self).player.state == PlayerState::Playing && persisted_ms
                >= underrun_buffering_threshold_ms()) ==> {
                &&& final(self).player.state == PlayerState::Buffering
                &&& !final(self).clock.spec_is_running()
                &&& final(self).player.events@ == old(self).player.events@.push(
                    PlayerEvent::BufferUnderrun,
                ).push(PlayerEvent::StateChanged(PlayerState::Buffering))
            },
            !(old(self).player.state == PlayerState::Playing && persisted_ms
                >= underrun_buffering_threshold_ms()) ==> {
                &&& final(self).player.state == old(self).player.state
                &&& final(self).clock == old(self).clock
                &&& final(self).player.events@ == old(self).player.events@.push(
                    PlayerEvent::BufferUnderrun,
                )
            },
            final(self).player.position_ms == old(self).player.position_ms,
            final(self).ring_buffer == old(self).ring_buffer,
            final(self).decoder == old(self).decoder,
            final(self).config == old(self).config,
    {
        self.player.events.push(PlayerEvent::BufferUnderrun);
        proof {
            assert(self.player.wf());
        }
        if self.player.is_playing() && persisted_ms >= 150 {
            self.player.set_state(PlayerState::Buffering);
            self.clock.stop();
        }
    }

    /// While Buffering, return to Playing once the ring has refilled to the
    /// target level, restarting the clock at wall time `now_ns` and
    /// publishing StateChanged(Playing); below the target, and outside
    /// Buffering, nothing changes.
    pub fn check_buffering_recovery(&mut self, now_ns: u64)
        requires
            old(self).wf(),
        ensures
            final(self).wf(),
            buffering_recovery_post(*old(self), *final(self)),
    {
        if matches!(self.player.state(), PlayerState::Buffering) {
            let level = self.buffer_level_permille();
            if level >= self.config.target_buffer_level_permille {
                self.player.set_state(PlayerState::Playing);
                self.clock.start_at(now_ns);
            }
        }
    }

    pub fn state(&self) -> (r: PlayerState)
        ensures
            r == self.player.state,
    {
        self.player.state()
    }

    pub fn position(&self) -> (r: u64)
        ensures
            r == self.player.position_ms,
    {
        self.player.position()
    }

    pub fn current_format(&self) -> (r: Option<AudioFormat>)
        ensures
            r == self.player.current_format,
    {
        self.player.current_format()
    }

    /// Drift and jitter at wall time `now_ns`; nothing while the clock is
    /// stopped.
    pub fn get_clock_stats(&self, now_ns: u64) -> (r: Option<ClockStats>)
        requires
            self.wf(),
        ensures
            r == self.clock.spec_stats(now_ns as int),
    {
        self.clock.stats_at(now_ns)
    }

    pub fn is_running(&self) -> (r: bool)
        ensures
            r == self.running,
    {
        self.running
    }

    pub fn volume(&self) -> (r: u32)
        ensures
            r == self.volume_percent,
    {
        self.volume_percent
    }

    /// Drain the transport's queued events for the host layer's
    /// notification channel.
    pub fn take_events(&mut self) -> (r: Vec<PlayerEvent>)
        requires
            old(self).wf(),
        ensures
            final(self).wf(),
            r@ == old(self).player.events@,
            final(self).player.events@ == Seq::<PlayerEvent>::empty(),
            final(self).player.state == old(self).player.state,
            final(self).ring_buffer == old(self).ring_buffer,
            final(self).decoder == old(self).decoder,
    {
        self.player.take_events()
    }
}

/// Append `src` to `dst`.
fn append_bytes(dst: &mut Vec<u8>, src: &Vec<u8>)
    ensures
        final(dst)@ == old(dst)@ + src@,
{
    let mut i: usize = 0;
    while i < src.len()
        invariant
            i <= src@.len(),
            dst@ == old(dst)@ + src@.take(i as int),
        decreases src@.len() - i,
    {
        dst.push(src[i]);
        proof {
            assert(dst@ =~= old(dst)@ + src@.take(i as int + 1));
        }
        i = i + 1;
    }
    proof {
        assert(dst@ =~= old(dst)@ + src@);
    }
}

/// The elements of `v` from position `from` on, as a new vector.
fn split_off_front(v: &Vec<u8>, from: usize) -> (r: Vec<u8>)
    requires
        from <= v@.len(),
    ensures
        r@ == v@.skip(from as int),
{
    let mut r: Vec<u8> = Vec::new();
    let mut i: usize = from;
    while i < v.len()
        invariant
            from <= i <= v@.len(),
            r@ == v@.subrange(from as int, i as int),
        decreases v@.len() - i,
    {
        r.push(v[i]);
        proof {
            assert(r@ =~= v@.subrange(from as int, i as int + 1));
        }
        i = i + 1;
    }
    proof {
        assert(r@ =~= v@.skip(from as int));
    }
    r
}

} // verus!
