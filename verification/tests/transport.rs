//! The transport state machine, the engine's command handling, and the
//! end-to-end control scenarios.
use audio_core::bitperfect::{BitPerfectConfig, BitPerfectManager, BitPerfectMode};
use audio_core::config::AudioConfig;
use audio_core::decoder::Decoder;
use audio_core::device::{score_config, AudioDevice, DeviceInfo, DeviceManager, SupportedConfigRange};
use audio_core::dsp::Processor;
use audio_core::engine::{AudioEngine, EngineCommand, EngineDirective};
use audio_core::eq::Equalizer;
use audio_core::errors::AudioError;
use audio_core::format::{AudioFormat, SampleFormat};
use audio_core::output::callback_fill;
use audio_core::player::{Player, PlayerEvent, PlayerState};

fn device(rate: u32, name: &str, index: usize, is_default: bool) -> AudioDevice {
    let info = DeviceInfo {
        name: name.to_string(),
        index,
        is_default,
        supported_formats: vec!["S16".to_string()],
        max_channels: 2,
        max_sample_rate: rate,
    };
    let configs = vec![SupportedConfigRange {
        channels: 2,
        min_sample_rate: rate,
        max_sample_rate: rate,
        sample_format: SampleFormat::S16,
    }];
    AudioDevice::new(info, configs)
}

fn device_supporting(rate: u32) -> DeviceManager {
    let info = DeviceInfo {
        name: "card".to_string(),
        index: 0,
        is_default: true,
        supported_formats: vec!["S16".to_string()],
        max_channels: 2,
        max_sample_rate: rate,
    };
    let configs = vec![SupportedConfigRange {
        channels: 2,
        min_sample_rate: rate,
        max_sample_rate: rate,
        sample_format: SampleFormat::S16,
    }];
    let mut dm = DeviceManager::new();
    dm.set_devices(vec![AudioDevice::new(info, configs)], Some(0));
    dm
}

#[test]
fn invalid_pause_is_refused_without_events() {
    let mut player = Player::new();
    let r = player.pause();
    assert!(matches!(r, Err(AudioError::InvalidState(_))));
    assert_eq!(player.state(), PlayerState::Stopped);
    let events = player.take_events();
    assert!(events.is_empty());
}

#[test]
fn player_transitions_and_events() {
    let mut player = Player::new();
    player.play().unwrap();
    assert!(player.is_playing());
    player.pause().unwrap();
    assert!(player.is_paused());
    player.play().unwrap();
    player.stop().unwrap();
    assert!(player.is_stopped());
    assert_eq!(player.position(), 0);
    let events = player.take_events();
    assert!(matches!(events[0], PlayerEvent::StateChanged(PlayerState::Playing)));
    assert!(matches!(events[1], PlayerEvent::StateChanged(PlayerState::Paused)));
    assert!(matches!(events[2], PlayerEvent::StateChanged(PlayerState::Playing)));
    assert!(matches!(events[3], PlayerEvent::StateChanged(PlayerState::Stopped)));
    assert!(matches!(events[4], PlayerEvent::PositionChanged(0)));
    assert_eq!(events.len(), 5);
}

#[test]
fn stop_clears_error_state() {
    let mut player = Player::new();
    player.report_error("decoder gave up".to_string());
    assert_eq!(player.state(), PlayerState::Error);
    player.stop().unwrap();
    assert_eq!(player.state(), PlayerState::Stopped);
}

#[test]
fn load_play_stop_event_order() {
    let mut engine = AudioEngine::new(AudioConfig::default()).unwrap();
    let directive = engine.handle_command(
        &EngineCommand::LoadTrack("a.flac".to_string()),
        0,
    );
    assert_eq!(directive, EngineDirective::OpenDecoder("a.flac".to_string()));
    let format = AudioFormat::new(44100, 2, SampleFormat::S16);
    engine.finish_load("a.flac".to_string(), Ok(Decoder::new(format, Some(44100 * 200))));
    engine.handle_command(&EngineCommand::Play, 1_000);
    engine.handle_command(&EngineCommand::Stop, 2_000);

    assert_eq!(engine.state(), PlayerState::Stopped);
    assert_eq!(engine.position(), 0);
    assert_eq!(engine.ring_buffer.len(), 0);
    assert!(!engine.clock.is_running());

    let events = engine.take_events();
    assert!(matches!(events[0], PlayerEvent::TrackChanged(ref p) if p == "a.flac"));
    assert!(matches!(events[1], PlayerEvent::StateChanged(PlayerState::Playing)));
    assert!(matches!(events[2], PlayerEvent::StateChanged(PlayerState::Stopped)));
    assert!(matches!(events[3], PlayerEvent::PositionChanged(0)));
    assert_eq!(events.len(), 4);
}

#[test]
fn failed_load_reports_error_and_stays_stopped() {
    let mut engine = AudioEngine::new(AudioConfig::default()).unwrap();
    engine.handle_command(&EngineCommand::LoadTrack("missing.ogg".to_string()), 0);
    engine.finish_load(
        "missing.ogg".to_string(),
        Err(AudioError::DecodeError("no audio track".to_string())),
    );
    assert_eq!(engine.state(), PlayerState::Stopped);
    let events = engine.take_events();
    assert_eq!(events.len(), 1);
    assert!(matches!(events[0], PlayerEvent::Error(_)));
}

#[test]
fn seek_clears_ring_resets_clock_publishes_one_position() {
    let mut engine = AudioEngine::new(AudioConfig::default()).unwrap();
    engine.handle_command(&EngineCommand::LoadTrack("a.flac".to_string()), 0);
    let format = AudioFormat::new(44100, 2, SampleFormat::S16);
    engine.finish_load("a.flac".to_string(), Ok(Decoder::new(format, None)));
    engine.handle_command(&EngineCommand::Play, 0);
    engine.push_to_ring(&vec![1, 2, 3, 4]);
    let _ = engine.take_events();

    let directive = engine.handle_command(&EngineCommand::Seek(10_000), 5);
    // ten seconds at 44100 Hz
    assert_eq!(directive, EngineDirective::SeekDecoder(441_000));
    assert_eq!(engine.ring_buffer.len(), 0);
    assert_eq!(engine.clock.frames_played, 0);
    assert_eq!(engine.decoder.as_ref().unwrap().current_frame(), 441_000);
    let events = engine.take_events();
    assert_eq!(events.len(), 1);
    assert!(matches!(events[0], PlayerEvent::PositionChanged(10_000)));
}

#[test]
fn underrun_scenario_pads_silence_and_recovers() {
    let mut config = AudioConfig::default();
    config.target_buffer_level_permille = 900;
    config.buffer_pool_size = 1;
    let mut engine = AudioEngine::new(config).unwrap();
    engine.handle_command(&EngineCommand::Play, 0);
    let _ = engine.take_events();

    // the producer stalls; the callback keeps consuming and runs dry
    let (out, underrun) = callback_fill(&mut engine.ring_buffer, 8, 0);
    assert!(underrun);
    assert_eq!(out, vec![0u8; 8]);

    // a transient underrun only notifies
    engine.report_underrun(0);
    assert_eq!(engine.state(), PlayerState::Playing);
    // one that persists past the threshold enters Buffering, stopping the clock
    engine.report_underrun(200);
    assert_eq!(engine.state(), PlayerState::Buffering);
    assert!(!engine.clock.is_running());
    let events = engine.take_events();
    assert!(matches!(events[0], PlayerEvent::BufferUnderrun));
    assert!(matches!(events[1], PlayerEvent::BufferUnderrun));
    assert!(matches!(events[2], PlayerEvent::StateChanged(PlayerState::Buffering)));

    // a Play command below the target keeps buffering
    engine.handle_command(&EngineCommand::Play, 1_000);
    assert_eq!(engine.state(), PlayerState::Buffering);
    assert!(engine.take_events().is_empty());

    // playback resumes without a restart once the ring refills
    let refill = vec![0u8; 65536];
    engine.push_to_ring(&refill);
    engine.check_buffering_recovery(2_000);
    assert_eq!(engine.state(), PlayerState::Playing);
    assert!(engine.clock.is_running());
    let events = engine.take_events();
    assert!(matches!(events[0], PlayerEvent::StateChanged(PlayerState::Playing)));
    assert_eq!(events.len(), 1);
}

#[test]
fn play_command_completes_buffering_recovery() {
    let mut config = AudioConfig::default();
    config.ring_buffer_size = 1000;
    config.target_buffer_level_permille = 500;
    let mut engine = AudioEngine::new(config).unwrap();
    engine.handle_command(&EngineCommand::Play, 0);
    engine.report_underrun(500);
    assert_eq!(engine.state(), PlayerState::Buffering);
    engine.push_to_ring(&vec![0u8; 600]);
    let _ = engine.take_events();
    engine.handle_command(&EngineCommand::Play, 1_000);
    assert_eq!(engine.state(), PlayerState::Playing);
    assert!(engine.clock.is_running());
    let events = engine.take_events();
    assert!(matches!(events[0], PlayerEvent::StateChanged(PlayerState::Playing)));
}

#[test]
fn bitperfect_mismatch_with_resampling_disallowed() {
    // source 44100/16-bit, device supporting only 48000/16-bit
    let dm = device_supporting(48000);
    let config = BitPerfectConfig { allow_resampling: false, ..BitPerfectConfig::default() };
    let mut manager = BitPerfectManager::new(config, dm);
    let source = AudioFormat::new(44100, 2, SampleFormat::S16);
    let r = manager.prepare_format(source);
    assert!(matches!(r, Err(AudioError::BitPerfectError(_))));
    assert!(!manager.is_bitperfect());

    // the engine surfaces it as a fatal error; Stop clears to Stopped
    let mut engine = AudioEngine::new(AudioConfig::default()).unwrap();
    engine.player.report_error("Cannot achieve bit-perfect output".to_string());
    assert_eq!(engine.state(), PlayerState::Error);
    engine.handle_command(&EngineCommand::Stop, 0);
    assert_eq!(engine.state(), PlayerState::Stopped);
}

#[test]
fn bitperfect_native_format_is_kept() {
    let dm = device_supporting(44100);
    let mut manager = BitPerfectManager::new(BitPerfectConfig::default(), dm);
    let source = AudioFormat::new(44100, 2, SampleFormat::S16);
    let delivered = manager.prepare_format(source).unwrap();
    assert_eq!(delivered, source);
    assert!(manager.is_bitperfect());
    assert_eq!(manager.current_format(), Some(source));
    assert!(manager.check_integrity().unwrap());
}

#[test]
fn bitperfect_disabled_mode_uses_shared_format() {
    let dm = device_supporting(48000);
    let config = BitPerfectConfig { mode: BitPerfectMode::Disabled, ..BitPerfectConfig::default() };
    let mut manager = BitPerfectManager::new(config, dm);
    let source = AudioFormat::new(44100, 2, SampleFormat::S16);
    assert!(!manager.validate_format(&source).unwrap());
    assert_eq!(manager.find_best_device(&source), Some(0));
    // even with resampling disallowed, Disabled mode delivers the default
    // device's shared-mode format instead of failing
    let delivered = manager.prepare_format(source).unwrap();
    assert_eq!(delivered, AudioFormat::new(48000, 2, SampleFormat::S16));
    assert!(!manager.is_bitperfect());
}

#[test]
fn bitperfect_negotiates_against_any_supporting_device() {
    // the default takes only 48000; a second device takes the source natively
    let mut dm = DeviceManager::new();
    dm.set_devices(
        vec![device(48000, "default card", 0, true), device(44100, "dac", 1, false)],
        Some(0),
    );
    let config = BitPerfectConfig { allow_resampling: false, ..BitPerfectConfig::default() };
    let mut manager = BitPerfectManager::new(config, dm);
    let source = AudioFormat::new(44100, 2, SampleFormat::S16);
    let delivered = manager.prepare_format(source).unwrap();
    assert_eq!(delivered, source);
    assert!(manager.is_bitperfect());
    assert_eq!(manager.selected_device, Some(1));
    assert!(manager.check_integrity().unwrap());
}

#[test]
fn registry_picks_the_highest_scoring_supporter() {
    // both support the format; the second also matches its encoding exactly
    let first = device(44100, "plain", 0, true);
    let mut second = device(44100, "exact", 1, false);
    second.configs[0].sample_format = SampleFormat::S24;
    let mut dm = DeviceManager::new();
    dm.set_devices(vec![first, second], Some(0));
    let wanted = AudioFormat::new(44100, 2, SampleFormat::S24);
    assert_eq!(dm.find_best_index_for_format(&wanted), Some(1));

    // with equal scores the earliest supporter wins
    let mut tie = DeviceManager::new();
    tie.set_devices(vec![device(44100, "a", 0, true), device(44100, "b", 1, false)], Some(0));
    let s16 = AudioFormat::new(44100, 2, SampleFormat::S16);
    assert_eq!(tie.find_best_index_for_format(&s16), Some(0));
}

#[test]
fn bitperfect_fallback_with_resampling_allowed() {
    let dm = device_supporting(48000);
    let config = BitPerfectConfig { allow_resampling: true, ..BitPerfectConfig::default() };
    let mut manager = BitPerfectManager::new(config, dm);
    let source = AudioFormat::new(44100, 2, SampleFormat::S16);
    let delivered = manager.prepare_format(source).unwrap();
    assert_eq!(delivered, AudioFormat::new(48000, 2, SampleFormat::S16));
    assert!(!manager.is_bitperfect());
}

#[test]
fn volume_change_during_playback() {
    let mut engine = AudioEngine::new(AudioConfig::default()).unwrap();
    engine.handle_command(&EngineCommand::Play, 0);
    assert_eq!(engine.volume(), 100);
    // SetVolume(0.5) in hundredths
    engine.handle_command(&EngineCommand::SetVolume(50), 50_000_000);
    assert_eq!(engine.volume(), 50);
    // the callback-side volume picks the change up, clamped to [0, 100]
    let mut out = audio_core::output::AudioOutput::new(AudioFormat::default()).unwrap();
    out.set_volume(engine.volume() as i64).unwrap();
    assert_eq!(out.get_volume(), 50);
}

#[test]
fn engine_volume_clamps_both_ways() {
    let mut engine = AudioEngine::new(AudioConfig::default()).unwrap();
    engine.handle_command(&EngineCommand::SetVolume(-100), 0);
    assert_eq!(engine.volume(), 0);
    engine.handle_command(&EngineCommand::SetVolume(500), 0);
    assert_eq!(engine.volume(), 200);
}

#[test]
fn set_eq_reaches_the_equalizer_stage() {
    let mut engine = AudioEngine::new(AudioConfig::default()).unwrap();
    engine.dsp.add_processor(Processor::Equalizer(Equalizer::new(44100, 2, 10)));
    engine.handle_command(&EngineCommand::SetEQ(vec![3, -7, 30]), 0);
    match engine.dsp.get_processor(0).unwrap() {
        Processor::Equalizer(eq) => {
            assert_eq!(eq.get_band_gain(0), Some(3));
            assert_eq!(eq.get_band_gain(1), Some(-7));
            // out-of-range gains arrive clamped
            assert_eq!(eq.get_band_gain(2), Some(20));
            assert_eq!(eq.get_band_gain(3), Some(0));
        }
        _ => panic!("equalizer stage missing"),
    }
    // toggling the chain is the EnableDSP command
    engine.handle_command(&EngineCommand::EnableDSP(false), 0);
    assert!(!engine.dsp.is_enabled());
}

#[test]
fn engine_rejects_invalid_configuration() {
    let mut config = AudioConfig::default();
    config.ring_buffer_size = 0;
    assert!(matches!(AudioEngine::new(config), Err(AudioError::InvalidParameter(_))));
}

#[test]
fn engine_refill_follows_target_level() {
    let mut config = AudioConfig::default();
    config.ring_buffer_size = 1000;
    config.target_buffer_level_permille = 500;
    let mut engine = AudioEngine::new(config).unwrap();
    assert!(!engine.needs_refill());
    engine.handle_command(&EngineCommand::Play, 0);
    assert!(engine.needs_refill());
    engine.push_to_ring(&vec![0u8; 499]);
    assert!(engine.needs_refill());
    engine.push_to_ring(&vec![0u8; 1]);
    assert!(!engine.needs_refill());
}

#[test]
fn engine_pending_bytes_carry_over() {
    let mut config = AudioConfig::default();
    config.ring_buffer_size = 4;
    let mut engine = AudioEngine::new(config).unwrap();
    let written = engine.push_to_ring(&vec![1, 2, 3, 4, 5, 6]);
    assert_eq!(written, 4);
    assert_eq!(engine.pending, vec![5, 6]);
    // draining the ring lets the pending tail through on the next step
    let mut sink = vec![0u8; 4];
    engine.ring_buffer.read(&mut sink);
    let written2 = engine.push_to_ring(&vec![7]);
    assert_eq!(written2, 3);
    assert_eq!(engine.pending, Vec::<u8>::new());
    let mut rest = vec![0u8; 4];
    let n = engine.ring_buffer.read(&mut rest);
    assert_eq!(n, 3);
    assert_eq!(&rest[..3], &[5, 6, 7]);
}

#[test]
fn end_of_stream_stops_transport() {
    let mut engine = AudioEngine::new(AudioConfig::default()).unwrap();
    engine.handle_command(&EngineCommand::Play, 0);
    engine.record_decoded(0);
    engine.handle_end_of_stream();
    assert_eq!(engine.state(), PlayerState::Stopped);
    assert!(!engine.clock.is_running());
}

#[test]
fn shutdown_halts_the_loop() {
    let mut engine = AudioEngine::new(AudioConfig::default()).unwrap();
    assert!(engine.is_running());
    let d = engine.handle_command(&EngineCommand::Shutdown, 0);
    assert_eq!(d, EngineDirective::Shutdown);
    assert!(!engine.is_running());
}

#[test]
fn device_scoring_rewards_exact_match() {
    let config = SupportedConfigRange {
        channels: 2,
        min_sample_rate: 8000,
        max_sample_rate: 96000,
        sample_format: SampleFormat::S16,
    };
    let exact = AudioFormat::new(44100, 2, SampleFormat::S16);
    assert_eq!(score_config(&config, &exact), 180);
    let off_rate = AudioFormat::new(192000, 2, SampleFormat::S16);
    assert_eq!(score_config(&config, &off_rate), 130);
    let off_channels = AudioFormat::new(44100, 6, SampleFormat::S16);
    assert_eq!(score_config(&config, &off_channels), 40);
    // only the exact encoding earns the match bonus
    let s32_range = SupportedConfigRange { sample_format: SampleFormat::S32, ..config };
    let s24_format = AudioFormat::new(44100, 2, SampleFormat::S24);
    assert_eq!(score_config(&s32_range, &s24_format), 150);
}

#[test]
fn device_registry_lookups() {
    let dm = device_supporting(48000);
    assert_eq!(dm.device_count(), 1);
    let native = AudioFormat::new(48000, 2, SampleFormat::S16);
    let foreign = AudioFormat::new(44100, 2, SampleFormat::S16);
    assert!(dm.default_device().unwrap().supports_format(&native));
    assert!(!dm.default_device().unwrap().supports_format(&foreign));
    assert!(dm.find_best_device_for_format(&native).is_some());
    assert!(dm.find_best_device_for_format(&foreign).is_none());
    assert!(dm.get_device_by_name("card").is_some());
    assert!(dm.get_device_by_name("ghost").is_none());
    assert!(dm.get_device(0).is_some());
    assert!(dm.get_device(1).is_none());
}
