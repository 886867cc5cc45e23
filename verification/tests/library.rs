//! The library models, metadata rules, scanner and watcher bookkeeping,
//! configuration, and the control-plane shapes.
use audio_core::cache::{Metadata, MetadataCache};
use audio_core::config::{AppConfig, AudioConfig, EQBandConfig};
use audio_core::database::DatabaseConfig;
use audio_core::decoder::{sample_format_for_bits, Decoder};
use audio_core::errors::AudioError;
use audio_core::format::{AudioFormat, SampleFormat};
use audio_core::metadata::{is_audio_file, TrackMetadata};
use audio_core::models::{Album, Artist, Playlist, SearchQuery, SortField, SortOrder, Track};
use audio_core::protocol::{encoding_name, AudioFormatInfo};
use audio_core::scanner::{classify_file, tally_outcomes, FileOutcome, FileStatus,
    ScanProgressTracker};
use audio_core::stream::{AudioStream, StreamInfo};
use audio_core::textutil::{to_ascii_lower, u64_to_string};
use audio_core::watch::{convert_event, plan_event_actions, should_flush, FileAction,
    FsChangeKind, WatchEvent, WatchStatsCollector};

#[test]
fn test_audio_file_detection() {
    assert!(is_audio_file("test.mp3"));
    assert!(is_audio_file("test.flac"));
    assert!(is_audio_file("test.wav"));
    assert!(!is_audio_file("test.txt"));
    assert!(!is_audio_file("test.jpg"));
}

#[test]
fn audio_file_detection_edge_cases() {
    assert!(is_audio_file("FOO.MP3"));
    assert!(is_audio_file("dir.with.dots/song.Flac"));
    assert!(!is_audio_file("noextension"));
    assert!(!is_audio_file(""));
    assert!(is_audio_file("a.b.ogg"));
}

#[test]
fn test_metadata_creation() {
    let metadata = TrackMetadata {
        path: "".to_string(),
        title: Some("Test Song".to_string()),
        artist: Some("Test Artist".to_string()),
        album: Some("Test Album".to_string()),
        album_artist: None,
        year: Some(2024),
        track_number: Some(1),
        disc_number: Some(1),
        genre: Some("Rock".to_string()),
        duration_ms: Some(180 * 1000),
        sample_rate: Some(44100),
        bit_depth: Some(16),
        channels: Some(2),
        bitrate: Some(320),
        file_size: 1024,
        modified_time: 0,
    };

    assert_eq!(metadata.title, Some("Test Song".to_string()));
    assert_eq!(metadata.artist, Some("Test Artist".to_string()));
    assert_eq!(metadata.year, Some(2024));
}

#[test]
fn metadata_fallbacks() {
    let mut m = TrackMetadata::new("music/album/07 - song.flac".to_string(), 10, 20);
    m.apply_fallbacks();
    assert_eq!(m.title, Some("07 - song".to_string()));
    assert_eq!(m.artist, Some("Unknown Artist".to_string()));

    let mut named = TrackMetadata::new("x.mp3".to_string(), 1, 2);
    named.title = Some("Kept".to_string());
    named.artist = Some("Someone".to_string());
    named.apply_fallbacks();
    assert_eq!(named.title, Some("Kept".to_string()));
    assert_eq!(named.artist, Some("Someone".to_string()));
}

#[test]
fn metadata_applies_to_track() {
    let mut m = TrackMetadata::new("a/b.mp3".to_string(), 99, 7);
    m.title = Some("B".to_string());
    m.sample_rate = Some(48000);
    m.bit_depth = Some(24);
    m.channels = Some(2);
    m.genre = Some("Jazz".to_string());
    let mut track = Track::new("a/b.mp3".to_string());
    m.apply_to_track(&mut track);
    assert_eq!(track.title, "B");
    assert_eq!(track.sample_rate, Some(48000));
    assert_eq!(track.bit_depth, Some(24));
    assert_eq!(track.file_size, 99);
    assert_eq!(track.modified_time, 7);
    assert_eq!(track.genre, Some("Jazz".to_string()));
}

#[test]
fn track_display_title_falls_back_to_file_name() {
    let mut t = Track::new("music/deep/Sound Of Silence.flac".to_string());
    assert_eq!(t.display_title(), "Sound Of Silence.flac");
    t.title = "Named".to_string();
    assert_eq!(t.display_title(), "Named");
    let empty = Track::new("".to_string());
    assert_eq!(empty.display_title(), "Unknown");
}

#[test]
fn track_format_info_joins_known_fields() {
    let mut t = Track::new("x.flac".to_string());
    assert_eq!(t.format_info(), "Unknown");
    t.sample_rate = Some(44100);
    assert_eq!(t.format_info(), "44100Hz");
    t.bit_depth = Some(16);
    t.channels = Some(2);
    assert_eq!(t.format_info(), "44100Hz, 16bit, 2ch");
    t.sample_rate = None;
    assert_eq!(t.format_info(), "16bit, 2ch");
}

#[test]
fn track_audio_format_needs_all_three_facts() {
    let mut t = Track::new("x.flac".to_string());
    assert!(t.audio_format().is_none());
    t.sample_rate = Some(96000);
    t.channels = Some(2);
    t.bit_depth = Some(24);
    let f = t.audio_format().unwrap();
    assert_eq!(f, AudioFormat::new(96000, 2, SampleFormat::S24));
    t.bit_depth = Some(12);
    assert_eq!(t.audio_format().unwrap().sample_format, SampleFormat::S16);
}

#[test]
fn artist_and_album_display() {
    let mut artist = Artist::new("The Band".to_string());
    assert_eq!(artist.display_name(), "The Band");
    artist.sort_name = Some("Band, The".to_string());
    assert_eq!(artist.display_name(), "Band, The");

    let mut album = Album::new("Blue".to_string());
    assert_eq!(album.display_title(), "Blue");
    album.year = Some(1971);
    assert_eq!(album.display_title(), "Blue (1971)");
}

#[test]
fn playlist_membership() {
    let mut p = Playlist::new("Morning".to_string());
    p.add_track(3);
    p.add_track(5);
    p.add_track(3);
    assert_eq!(p.track_count(), 2);
    assert_eq!(p.track_ids, vec![3, 5]);
    p.remove_track(3);
    assert_eq!(p.track_ids, vec![5]);
    p.remove_track(99);
    assert_eq!(p.track_count(), 1);
}

#[test]
fn search_query_builders() {
    let q = SearchQuery::new("miles".to_string()).with_limit(25).with_offset(50).search_in_all();
    assert_eq!(q.query, "miles");
    assert_eq!(q.limit, Some(25));
    assert_eq!(q.offset, Some(50));
    assert!(q.search_in_genre);
    let d = SearchQuery::default();
    assert!(d.search_in_title && d.search_in_artist && d.search_in_album);
    assert!(!d.search_in_genre);
}

#[test]
fn sort_order_shorthands() {
    assert_eq!(SortOrder::title_asc(), SortOrder::new(SortField::Title, true));
    assert_eq!(SortOrder::title_desc(), SortOrder::new(SortField::Title, false));
    assert_eq!(SortOrder::artist_asc(), SortOrder::new(SortField::Artist, true));
    assert_eq!(SortOrder::added_time_desc(), SortOrder::new(SortField::AddedTime, false));
}

#[test]
fn test_scan_progress_tracker() {
    let mut tracker = ScanProgressTracker::new(100);

    assert_eq!(tracker.progress_permille(), 0);

    tracker.update(FileStatus::New);
    assert_eq!(tracker.progress_permille(), 10);
    assert_eq!(tracker.new_tracks, 1);

    tracker.update(FileStatus::Updated);
    assert_eq!(tracker.progress_permille(), 20);
    assert_eq!(tracker.updated_tracks, 1);

    tracker.record_failure();
    assert_eq!(tracker.progress_permille(), 30);
    assert_eq!(tracker.failed_files, 1);
}

#[test]
fn scan_classification_rules() {
    assert_eq!(classify_file(None, 5), (FileStatus::New, true));
    assert_eq!(classify_file(Some(5), 5), (FileStatus::Unchanged, false));
    assert_eq!(classify_file(Some(4), 5), (FileStatus::Updated, true));
}

#[test]
fn scan_tally_counts_outcomes() {
    let outcomes = vec![
        FileOutcome::Processed(FileStatus::New),
        FileOutcome::Processed(FileStatus::Unchanged),
        FileOutcome::Processed(FileStatus::New),
        FileOutcome::Failed,
        FileOutcome::Processed(FileStatus::Updated),
    ];
    assert_eq!(tally_outcomes(&outcomes), (2, 1, 1));
}

#[test]
fn scan_remaining_estimate() {
    let tracker = ScanProgressTracker::new_at(10, 0);
    assert!(tracker.estimated_remaining_from(1_000).is_none());
    let mut busy = ScanProgressTracker::new_at(10, 0);
    busy.update(FileStatus::New);
    busy.update(FileStatus::New);
    // 2 files took 1000 ns: 500 each, 8 remain
    assert_eq!(busy.estimated_remaining_from(1_000), Some(4_000));
}

#[test]
fn test_watch_stats_collector() {
    let mut collector = WatchStatsCollector::new();

    collector.record_event(&WatchEvent::FileAdded {
        path: "test.mp3".to_string(),
    });
    collector.record_event(&WatchEvent::FileRemoved {
        path: "test.mp3".to_string(),
    });

    let stats = collector.get_stats();
    assert_eq!(stats.events_processed, 2);
    assert_eq!(stats.files_added, 1);
    assert_eq!(stats.files_removed, 1);
}

#[test]
fn watch_event_conversion() {
    let e = convert_event(FsChangeKind::Created, vec!["a.mp3".to_string()]);
    assert!(matches!(e, Some(WatchEvent::FileAdded { ref path }) if path == "a.mp3"));
    let e = convert_event(FsChangeKind::Removed, vec!["a.mp3".to_string()]);
    assert!(matches!(e, Some(WatchEvent::FileRemoved { .. })));
    let e = convert_event(FsChangeKind::DataChanged, vec!["a.mp3".to_string()]);
    assert!(matches!(e, Some(WatchEvent::FileModified { .. })));
    let e = convert_event(
        FsChangeKind::NameChanged,
        vec!["old.mp3".to_string(), "new.mp3".to_string()],
    );
    assert!(
        matches!(e, Some(WatchEvent::FileRenamed { ref old_path, ref new_path })
            if old_path == "old.mp3" && new_path == "new.mp3")
    );
    let e = convert_event(FsChangeKind::NameChanged, vec!["gone.mp3".to_string()]);
    assert!(matches!(e, Some(WatchEvent::FileRemoved { .. })));
    assert!(convert_event(FsChangeKind::Other, vec!["x".to_string()]).is_none());
    assert!(convert_event(FsChangeKind::Created, vec![]).is_none());
}

#[test]
fn watch_flush_policy() {
    assert!(should_flush(10, 10, 0, 1000));
    assert!(!should_flush(9, 10, 999, 1000));
    assert!(should_flush(0, 10, 1000, 1000));
}

#[test]
fn watch_planning_respects_auto_scan() {
    let events = vec![
        WatchEvent::FileAdded { path: "a.mp3".to_string() },
        WatchEvent::FileRenamed { old_path: "b.mp3".to_string(), new_path: "c.mp3".to_string() },
        WatchEvent::Error { error: "boom".to_string() },
    ];
    let plan = plan_event_actions(events.clone(), true);
    assert_eq!(plan.len(), 3);
    assert!(matches!(plan[0], FileAction::ScanFile(ref p) if p == "a.mp3"));
    assert!(matches!(plan[1], FileAction::RemoveFile(ref p) if p == "b.mp3"));
    assert!(matches!(plan[2], FileAction::ScanFile(ref p) if p == "c.mp3"));

    let manual = plan_event_actions(events, false);
    assert_eq!(manual.len(), 1);
    assert!(matches!(manual[0], FileAction::RemoveFile(ref p) if p == "b.mp3"));
}

#[test]
fn cached_metadata_completeness() {
    let mut m = Metadata::new(512);
    assert_eq!(m.file_size, 512);
    assert!(!m.is_complete());
    m.title = Some("T".to_string());
    assert!(m.is_complete());
}

#[test]
fn metadata_cache_hit_miss_and_ttl() {
    let mut cache = MetadataCache::new(2, 1_000);
    assert!(cache.is_empty());
    assert!(cache.get_at("a.mp3", 0).is_none());

    let mut m = Metadata::new(7);
    m.title = Some("A".to_string());
    cache.put_at("a.mp3".to_string(), m, 0);
    assert!(cache.contains("a.mp3"));
    assert_eq!(cache.size(), 1);

    // fresh within the TTL: a hit with the stored record
    let got = cache.get_at("a.mp3", 500).unwrap();
    assert_eq!(got.title, Some("A".to_string()));
    assert_eq!(got.file_size, 7);

    // stale after the TTL: the entry expires and the lookup misses
    assert!(cache.get_at("a.mp3", 5_000).is_none());
    assert!(!cache.contains("a.mp3"));

    let stats = cache.get_stats();
    assert_eq!(stats.hits, 1);
    assert_eq!(stats.misses, 2);
    assert_eq!(stats.hit_rate_permille, 333);
    cache.reset_stats();
    assert_eq!(cache.get_stats().hits, 0);
}

#[test]
fn metadata_cache_evicts_least_recently_used() {
    let mut cache = MetadataCache::new(2, u64::MAX);
    cache.put_at("a".to_string(), Metadata::new(1), 10);
    cache.put_at("b".to_string(), Metadata::new(2), 20);
    // reading "a" makes "b" the least recently used
    assert!(cache.get_at("a", 30).is_some());
    cache.put_at("c".to_string(), Metadata::new(3), 40);
    assert_eq!(cache.size(), 2);
    assert!(cache.contains("a"));
    assert!(!cache.contains("b"));
    assert!(cache.contains("c"));

    // replacing under an existing key does not grow the cache
    cache.put_at("c".to_string(), Metadata::new(9), 50);
    assert_eq!(cache.size(), 2);

    cache.remove("a");
    assert!(!cache.contains("a"));
    cache.clear();
    assert!(cache.is_empty());
}

#[test]
fn metadata_cache_cleanup_expired() {
    let mut cache = MetadataCache::new(8, 100);
    cache.put_at("x".to_string(), Metadata::new(1), 0);
    cache.put_at("y".to_string(), Metadata::new(2), 950);
    cache.cleanup_expired_at(1_000);
    assert!(!cache.contains("x"));
    assert!(cache.contains("y"));
}

#[test]
fn database_config_builder() {
    let c = DatabaseConfig::new("library.db".to_string());
    assert!(!c.read_only);
    assert_eq!(c.path, "library.db");
    let r = c.read_only();
    assert!(r.read_only);
}

#[test]
fn decoder_accounting_and_end_of_stream() {
    let format = AudioFormat::new(44100, 2, SampleFormat::S16);
    let mut d = Decoder::new(format, Some(44100 * 3));
    assert_eq!(d.current_frame(), 0);
    assert_eq!(d.duration_ms(), Some(3000));
    d.record_decoded(44100);
    assert_eq!(d.current_frame(), 44100);
    // end of stream: zero frames decoded leaves the position untouched
    d.record_decoded(0);
    assert_eq!(d.current_frame(), 44100);
    assert!(!d.at_end());
    d.seek(44100 * 3).unwrap();
    assert!(d.at_end());
    d.reset();
    assert_eq!(d.current_frame(), 44100 * 3);
    let unbounded = Decoder::new(format, None);
    assert!(unbounded.duration_ms().is_none());
    assert!(!unbounded.at_end());
}

#[test]
fn decoder_format_mapping() {
    assert_eq!(sample_format_for_bits(8, false), SampleFormat::U8);
    assert_eq!(sample_format_for_bits(16, false), SampleFormat::S16);
    assert_eq!(sample_format_for_bits(24, false), SampleFormat::S24);
    assert_eq!(sample_format_for_bits(32, false), SampleFormat::S32);
    assert_eq!(sample_format_for_bits(32, true), SampleFormat::F32);
    assert_eq!(sample_format_for_bits(20, false), SampleFormat::S16);
}

#[test]
fn stream_progress_and_completion() {
    let format = AudioFormat::default();
    let mut s = AudioStream::new("t.flac".to_string(), format, Some(200_000));
    assert_eq!(s.progress_permille(), 0);
    assert!(!s.is_complete());
    s.set_position(50_000);
    assert_eq!(s.progress_permille(), 250);
    s.set_position(200_000);
    assert!(s.is_complete());
    assert_eq!(s.progress_permille(), 1000);

    let live = AudioStream::new("radio".to_string(), format, None);
    assert_eq!(live.progress_permille(), 0);
    assert!(!live.is_complete());

    let info = StreamInfo::new("t.flac".to_string(), format, Some(200_000))
        .with_bitrate(320)
        .with_codec("flac".to_string());
    assert_eq!(info.bitrate, Some(320));
    assert_eq!(info.codec, "flac");
}

#[test]
fn config_validation_catches_each_fault() {
    let good = AudioConfig::default();
    assert!(good.validate().is_ok());

    let mut c = AudioConfig::default();
    c.buffer_size_frames = 0;
    assert!(matches!(c.validate(), Err(AudioError::InvalidParameter(_))));

    let mut c = AudioConfig::default();
    c.buffer_pool_size = 0;
    assert!(c.validate().is_err());

    let mut c = AudioConfig::default();
    c.ring_buffer_size = 0;
    assert!(c.validate().is_err());

    let mut c = AudioConfig::default();
    c.target_buffer_level_permille = 0;
    assert!(c.validate().is_err());
    c.target_buffer_level_permille = 1001;
    assert!(c.validate().is_err());

    let mut c = AudioConfig::default();
    c.default_sample_rate = 0;
    assert!(c.validate().is_err());

    let mut c = AudioConfig::default();
    c.output.volume_percent = 201;
    assert!(c.validate().is_err());

    let mut app = AppConfig::default();
    assert!(app.validate().is_ok());
    app.ipc.port = 0;
    assert!(matches!(app.validate(), Err(AudioError::InvalidParameter(_))));
}

#[test]
fn config_builders() {
    let c = AudioConfig::default()
        .with_buffer_size(1024)
        .with_sample_rate(96000)
        .with_channels(6)
        .with_bitperfect(false)
        .with_dsp(false)
        .with_volume(250);
    assert_eq!(c.buffer_size_frames, 1024);
    assert_eq!(c.default_sample_rate, 96000);
    assert_eq!(c.default_channels, 6);
    assert!(!c.bitperfect.enabled);
    assert!(!c.dsp.enabled);
    assert_eq!(c.output.volume_percent, 200);
    let band = EQBandConfig::new(1000, -3, 1414);
    assert_eq!(band.gain_db, -3);
}

#[test]
fn error_messages_carry_their_text() {
    let e = AudioError::DecodeError("bad frame".to_string());
    assert_eq!(e.message(), "bad frame");
    assert!(!e.is_invalid_state());
    let cancelled = AudioError::Cancelled;
    assert_eq!(cancelled.message(), "");
    let invalid = AudioError::InvalidState("nope".to_string());
    assert!(invalid.is_invalid_state());
    assert!(matches!(AudioError::Timeout("late".to_string()), AudioError::Timeout(_)));
}

#[test]
fn protocol_shapes_mirror_pipeline_values() {
    assert_eq!(encoding_name(SampleFormat::S24), "S24");
    let f = AudioFormat::new(88200, 2, SampleFormat::F32);
    let info = AudioFormatInfo::from_format(&f);
    assert_eq!(info.sample_rate, 88200);
    assert_eq!(info.channels, 2);
    assert_eq!(info.sample_format, "F32");
    assert!(info.bit_depth.is_none());

    let d = audio_core::device::DeviceInfo {
        name: "hdmi".to_string(),
        index: 3,
        is_default: false,
        supported_formats: vec![],
        max_channels: 8,
        max_sample_rate: 192000,
    };
    let p = audio_core::protocol::DeviceInfo::from_device_info(&d);
    assert_eq!(p.index, 3);
    assert_eq!(p.name, "hdmi");
    assert_eq!(p.max_sample_rate, 192000);
}

#[test]
fn text_helpers() {
    assert_eq!(u64_to_string(0), "0");
    assert_eq!(u64_to_string(12345), "12345");
    assert_eq!(u64_to_string(u64::MAX), "18446744073709551615");
    assert_eq!(to_ascii_lower("MiXeD.FLAC"), "mixed.flac");
}
