//! Track metadata: what the tag reader produces, and the rules applied to
//! it. Reading tags from disk is file I/O and runs in the host layer; the
//! fallbacks and the audio-file test are decided and verified here.
use vstd::prelude::*;
use vstd::string::StrSliceExecFns;
use crate::device::str_eq;
use crate::models::Track;
use crate::textutil::{after_last, spec_after_last, spec_lower, to_ascii_lower};

verus! {

/// The file extensions the scanner takes for audio, lowercased.
pub open spec fn spec_is_audio_ext(e: Seq<char>) -> bool {
    ||| e == "mp3"@
    ||| e == "flac"@
    ||| e == "wav"@
    ||| e == "ogg"@
    ||| e == "oga"@
    ||| e == "m4a"@
    ||| e == "aac"@
    ||| e == "wma"@
    ||| e == "ape"@
    ||| e == "wv"@
}

/// A path names an audio file when it has an extension — something after a
/// final dot — whose ASCII-lowercase form is one of the known ones.
pub open spec fn spec_is_audio_path(s: Seq<char>) -> bool {
    &&& exists|i: int| 0 <= i < s.len() && s[i] == '.'
    &&& spec_is_audio_ext(spec_lower(s.skip(spec_after_last(s, '.'))))
}

pub fn is_audio_file(path: &str) -> (r: bool)
    ensures
        r == spec_is_audio_path(path@),
{
    let (start, found) = after_last(path, '.');
    if !found {
        return false;
    }
    let n = path.unicode_len();
    let ext = path.substring_char(start, n);
    let lower = to_ascii_lower(ext);
    let l = lower.as_str();
    let r = str_eq(l, "mp3") || str_eq(l, "flac") || str_eq(l, "wav") || str_eq(l, "ogg")
        || str_eq(l, "oga") || str_eq(l, "m4a") || str_eq(l, "aac") || str_eq(l, "wma")
        || str_eq(l, "ape") || str_eq(l, "wv");
    proof {
        assert(ext@ =~= path@.skip(spec_after_last(path@, '.')));
    }
    r
}

/// Everything the tag reader can report about one file.
#[derive(Debug, Clone)]
pub struct TrackMetadata {
    pub path: String,
    pub title: Option<String>,
    pub artist: Option<String>,
    pub album: Option<String>,
    pub album_artist: Option<String>,
    pub year: Option<u32>,
    pub track_number: Option<u32>,
    pub disc_number: Option<u32>,
    pub genre: Option<String>,
    pub duration_ms: Option<u64>,
    pub sample_rate: Option<u32>,
    pub bit_depth: Option<u8>,
    pub channels: Option<u8>,
    pub bitrate: Option<u32>,
    pub file_size: u64,
    pub modified_time: u64,
}

impl TrackMetadata {
    /// A record with only the file facts; the host layer's tag reader fills
    /// the rest and then applies `apply_fallbacks`.
    pub fn new(path: String, file_size: u64, modified_time: u64) -> (r: Self)
        ensures
            r.path == path,
            r.file_size == file_size,
            r.modified_time == modified_time,
            r.title is None,
            r.artist is None,
            r.album is None,
            r.album_artist is None,
            r.year is None,
            r.track_number is None,
            r.disc_number is None,
            r.genre is None,
            r.duration_ms is None,
            r.sample_rate is None,
            r.bit_depth is None,
            r.channels is None,
            r.bitrate is None,
    {
        Self {
            path,
            title: None,
            artist: None,
            album: None,
            album_artist: None,
            year: None,
            track_number: None,
            disc_number: None,
            genre: None,
            duration_ms: None,
            sample_rate: None,
            bit_depth: None,
            channels: None,
            bitrate: None,
            file_size,
            modified_time,
        }
    }

    /// The file name's stem: after the last separator, before a final dot
    /// if the name has one.
    pub open spec fn spec_stem(path: Seq<char>) -> Seq<char> {
        let name = path.skip(spec_after_last(path, '/'));
        let dot = spec_after_last(name, '.');
        if dot > 0 {
            name.take(dot - 1)
        } else {
            name
        }
    }

    /// The fallbacks a freshly read record gets: a missing title becomes
    /// the file name's stem, a missing artist becomes "Unknown Artist".
    pub fn apply_fallbacks(&mut self)
        ensures
            final(self).title is Some,
            match old(self).title {
                Some(t) => final(self).title == old(self).title,
                None => final(self).title->0@ == Self::spec_stem(old(self).path@),
            },
            final(self).artist is Some,
            match old(self).artist {
                Some(a) => final(self).artist == old(self).artist,
                None => final(self).artist->0@ == "Unknown Artist"@,
            },
            final(self).path == old(self).path,
            final(self).album == old(self).album,
            final(self).album_artist == old(self).album_artist,
            final(self).year == old(self).year,
            final(self).track_number == old(self).track_number,
            final(self).disc_number == old(self).disc_number,
            final(self).genre == old(self).genre,
            final(self).duration_ms == old(self).duration_ms,
            final(self).sample_rate == old(self).sample_rate,
            final(self).bit_depth == old(self).bit_depth,
            final(self).channels == old(self).channels,
            final(self).bitrate == old(self).bitrate,
            final(self).file_size == old(self).file_size,
            final(self).modified_time == old(self).modified_time,
    {
        if self.title.is_none() {
            let p = self.path.as_str();
            let (name_start, _) = after_last(p, '/');
            let n = p.unicode_len();
            let name = p.substring_char(name_start, n);
            let (dot, has_dot) = after_last(name, '.');
            let stem = if has_dot {
                name.substring_char(0, dot - 1)
            } else {
                name
            };
            proof {
                assert(name@ =~= self.path@.skip(spec_after_last(self.path@, '/')));
                if spec_after_last(name@, '.') > 0 {
                    assert(stem@ =~= name@.take(spec_after_last(name@, '.') - 1));
                } else {
                    assert(stem@ =~= name@);
                }
            }
            self.title = Some(stem.to_owned());
        }
        if self.artist.is_none() {
            self.artist = Some("Unknown Artist".to_owned());
        }
    }

    /// Copy this record into a library track, field for field; the track's
    /// title falls back to its display title when the record has none.
    pub fn apply_to_track(&self, track: &mut Track)
        ensures
            match self.title {
                Some(ref t) => final(track).title@ == t@,
                None => final(track).title@ == old(track).spec_display_title(),
            },
            final(track).duration_ms == self.duration_ms,
            final(track).sample_rate == self.sample_rate,
            final(track).bit_depth == self.bit_depth,
            final(track).channels == self.channels,
            final(track).bitrate == self.bitrate,
            final(track).file_size == self.file_size,
            final(track).modified_time == self.modified_time,
            final(track).track_number == self.track_number,
            final(track).disc_number == self.disc_number,
            match self.genre {
                Some(ref g) => final(track).genre is Some && final(track).genre->0@ == g@,
                None => final(track).genre is None,
            },
            final(track).year == self.year,
            final(track).id == old(track).id,
            final(track).path == old(track).path,
            final(track).artist_id == old(track).artist_id,
            final(track).album_id == old(track).album_id,
            final(track).added_time == old(track).added_time,
            final(track).last_played == old(track).last_played,
            final(track).play_count == old(track).play_count,
            final(track).rating == old(track).rating,
    {
        track.title = match &self.title {
            Some(t) => t.clone(),
            None => track.display_title(),
        };
        track.duration_ms = self.duration_ms;
        track.sample_rate = self.sample_rate;
        track.bit_depth = self.bit_depth;
        track.channels = self.channels;
        track.bitrate = self.bitrate;
        track.file_size = self.file_size;
        track.modified_time = self.modified_time;
        track.track_number = self.track_number;
        track.disc_number = self.disc_number;
        track.genre = match &self.genre {
            Some(g) => Some(g.clone()),
            None => None,
        };
        track.year = self.year;
    }
}

/// Reads tags through the host layer; this side holds only the policy bit.
pub struct MetadataExtractor {
    pub cache_enabled: bool,
}

impl MetadataExtractor {
    pub fn new(cache_enabled: bool) -> (r: Self)
        ensures
            r.cache_enabled == cache_enabled,
    {
        Self { cache_enabled }
    }
}

impl Default for MetadataExtractor {
    fn default() -> (r: Self)
        ensures
            r.cache_enabled,
    {
        MetadataExtractor::new(true)
    }
}

} // verus!
