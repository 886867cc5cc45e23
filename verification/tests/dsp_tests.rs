//! The DSP layer: processors, chain, equalizer, resamplers.
use audio_core::dsp::{DSPChain, GainProcessor, PassthroughProcessor, Processor, VolumeProcessor};
use audio_core::eq::{EQBand, EQPreset, Equalizer};
use audio_core::format::{AudioFormat, SampleFormat};
use audio_core::resampler::Resampler;
use audio_core::resampler_engine::{ResampleQuality, ResamplerEngine};

#[test]
fn resampler_test_no_resampling_needed() {
    let format = AudioFormat::new(44100, 2, SampleFormat::F32);
    let resampler = Resampler::new(format, 44100).unwrap();
    assert!(!resampler.needs_resampling());
}

#[test]
fn resampler_test_resampling_needed() {
    let format = AudioFormat::new(44100, 2, SampleFormat::F32);
    let resampler = Resampler::new(format, 48000).unwrap();
    assert!(resampler.needs_resampling());
    assert_eq!(resampler.input_rate(), 44100);
    assert_eq!(resampler.output_rate(), 48000);
}

#[test]
fn resampler_engine_test_no_resampling_needed() {
    let format = AudioFormat::new(44100, 2, SampleFormat::F32);
    let resampler = ResamplerEngine::new(format, 44100, ResampleQuality::High).unwrap();
    assert!(!resampler.needs_resampling());
}

#[test]
fn resampler_engine_test_resampling_needed() {
    let format = AudioFormat::new(44100, 2, SampleFormat::F32);
    let resampler = ResamplerEngine::new(format, 48000, ResampleQuality::High).unwrap();
    assert!(resampler.needs_resampling());
    assert_eq!(resampler.input_rate(), 44100);
    assert_eq!(resampler.output_rate(), 48000);
}

#[test]
fn test_quality_settings() {
    let format = AudioFormat::new(44100, 2, SampleFormat::F32);
    let mut resampler = ResamplerEngine::new(format, 48000, ResampleQuality::Medium).unwrap();
    assert_eq!(resampler.get_quality(), ResampleQuality::Medium);

    resampler.set_quality(ResampleQuality::VeryHigh).unwrap();
    assert_eq!(resampler.get_quality(), ResampleQuality::VeryHigh);
}

#[test]
fn quality_maps_to_kernel_parameters() {
    assert_eq!(ResampleQuality::Low.sinc_len(), 64);
    assert_eq!(ResampleQuality::Medium.sinc_len(), 128);
    assert_eq!(ResampleQuality::High.sinc_len(), 256);
    assert_eq!(ResampleQuality::VeryHigh.sinc_len(), 512);
    assert_eq!(ResampleQuality::Low.oversampling_factor(), 32);
    assert_eq!(ResampleQuality::Medium.oversampling_factor(), 64);
    assert_eq!(ResampleQuality::High.oversampling_factor(), 128);
    assert_eq!(ResampleQuality::VeryHigh.oversampling_factor(), 256);
}

#[test]
fn resampler_identity_is_bit_identical() {
    let format = AudioFormat::new(44100, 2, SampleFormat::F32);
    let resampler = Resampler::new(format, 44100).unwrap();
    // arbitrary float bit patterns, NaNs and denormals included
    let words: Vec<u32> = vec![0x3F80_0000, 0x7FC0_0001, 0x0000_0001, 0xBF00_0000];
    let out = resampler.process_identity(&words).unwrap();
    assert_eq!(out, words);

    let converting = Resampler::new(format, 48000).unwrap();
    assert!(converting.process_identity(&words).is_none());

    let engine_stage = ResamplerEngine::new(format, 44100, ResampleQuality::Low).unwrap();
    assert_eq!(engine_stage.process_identity(&words).unwrap(), words);
}

#[test]
fn test_eq_band_creation() {
    let band = EQBand::new(1000, 3, 1414);
    assert_eq!(band.frequency, 1000);
    assert_eq!(band.gain_db, 3);
}

#[test]
fn test_eq_gain_clamping() {
    let mut band = EQBand::new(1000, 0, 1000);
    band.set_gain(30);
    assert_eq!(band.gain_db, 20);

    band.set_gain(-30);
    assert_eq!(band.gain_db, -20);
}

#[test]
fn test_preset_application() {
    let mut eq = Equalizer::new(44100, 2, 10);
    eq.apply_preset("Bass Boost").unwrap();

    assert!(eq.get_band_gain(0).unwrap() > 0);
    assert!(eq.get_band_gain(1).unwrap() > 0);
}

#[test]
fn test_preset_save() {
    let mut eq = Equalizer::new(44100, 2, 10);
    eq.set_band_gain(0, 5).unwrap();
    eq.save_preset("Custom").unwrap();

    let presets = eq.get_presets();
    assert!(presets.iter().any(|p| p == "Custom"));
}

#[test]
fn preset_tables() {
    let flat = EQPreset::flat();
    assert_eq!(flat.bands.len(), 10);
    assert!(flat.bands.iter().all(|b| b.gain_db == 0));
    assert_eq!(flat.bands[0].frequency, 32);
    assert_eq!(flat.bands[9].frequency, 16000);
    let rock = EQPreset::rock();
    assert_eq!(rock.bands[0].gain_db, 5);
    assert_eq!(rock.bands[7].gain_db, 4);
    let vocal = EQPreset::vocal();
    assert_eq!(vocal.bands[3].gain_db, -2);
    assert_eq!(vocal.bands[5].gain_db, 3);
    let classical = EQPreset::classical();
    assert_eq!(classical.bands[9].gain_db, 2);
}

#[test]
fn equalizer_band_management() {
    let mut eq = Equalizer::new(48000, 2, 5);
    assert_eq!(eq.get_bands().len(), 5);
    assert!(eq.set_band_gain(5, 3).is_err());
    assert!(eq.get_band_gain(5).is_none());
    eq.set_band_gain(2, 7).unwrap();
    assert_eq!(eq.get_band_gain(2), Some(7));
    assert!(eq.current_preset().is_none());

    let wrong_count = vec![EQBand::default(); 3];
    assert!(eq.set_bands(wrong_count).is_err());
    assert!(eq.apply_preset("No Such Preset").is_err());

    eq.reset();
    assert_eq!(eq.get_band_gain(2), Some(0));
    assert_eq!(eq.current_preset().unwrap(), "Flat");
}

#[test]
fn default_frequency_tables() {
    assert_eq!(
        Equalizer::default_frequencies(10),
        vec![32, 64, 125, 250, 500, 1000, 2000, 4000, 8000, 16000]
    );
    assert_eq!(Equalizer::default_frequencies(8).len(), 8);
    assert_eq!(Equalizer::default_frequencies(5).len(), 5);
    assert_eq!(Equalizer::default_frequencies(7).len(), 7);
}

#[test]
fn volume_processor_clamps() {
    let mut v = VolumeProcessor::new(300);
    assert_eq!(v.get_volume(), 200);
    v.set_volume(-1);
    assert_eq!(v.get_volume(), 0);
    v.set_volume(150);
    assert_eq!(v.get_volume(), 150);
    v.reset();
    assert_eq!(v.get_volume(), 100);
}

#[test]
fn gain_processor_holds_decibels() {
    let mut g = GainProcessor::new(-6);
    assert_eq!(g.get_gain_db(), -6);
    g.set_gain_db(3);
    assert_eq!(g.get_gain_db(), 3);
    g.reset();
    assert_eq!(g.get_gain_db(), 0);
}

#[test]
fn empty_chain_copies_input_bytewise() {
    let chain = DSPChain::new();
    let words: Vec<u32> = vec![1, 2, 0xFFFF_FFFF, 42];
    let out = chain.process_identity(&words).unwrap();
    assert_eq!(out, words);
}

#[test]
fn disabled_chain_copies_input_bytewise() {
    let mut chain = DSPChain::new();
    chain.add_processor(Processor::Volume(VolumeProcessor::new(50)));
    chain.set_enabled(false);
    let words: Vec<u32> = vec![7, 8, 9];
    let out = chain.process_identity(&words).unwrap();
    assert_eq!(out, words);
    // re-enabled, an active volume stage makes the chain no identity
    chain.set_enabled(true);
    assert!(chain.process_identity(&words).is_none());
}

#[test]
fn chain_with_only_disabled_stages_is_identity() {
    let mut chain = DSPChain::new();
    let mut v = Processor::Volume(VolumeProcessor::new(50));
    v.set_enabled(false);
    chain.add_processor(v);
    let words: Vec<u32> = vec![3, 4];
    assert_eq!(chain.process_identity(&words).unwrap(), words);
}

#[test]
fn chain_management_by_name() {
    let mut chain = DSPChain::new();
    chain.add_processor(Processor::Passthrough(PassthroughProcessor));
    chain.add_processor(Processor::Gain(GainProcessor::new(2)));
    chain.add_processor(Processor::Volume(VolumeProcessor::new(80)));
    assert_eq!(chain.processor_count(), 3);
    assert_eq!(chain.get_processor_names(), vec!["Passthrough", "Gain", "Volume"]);

    let removed = chain.remove_processor("Gain");
    assert!(matches!(removed, Some(Processor::Gain(_))));
    assert_eq!(chain.processor_count(), 2);
    assert!(chain.remove_processor("Gain").is_none());

    chain.reset();
    assert_eq!(chain.get_processor_names(), vec!["Passthrough", "Volume"]);
    match chain.get_processor(1).unwrap() {
        Processor::Volume(v) => assert_eq!(v.get_volume(), 100),
        _ => panic!("wrong stage"),
    }
}

#[test]
fn passthrough_copies_words() {
    let p = PassthroughProcessor;
    let words: Vec<u32> = vec![0xDEAD_BEEF, 0];
    assert_eq!(p.process(&words), words);
}
