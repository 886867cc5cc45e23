//! The library's data model: tracks, artists, albums, playlists, and the
//! query shapes the catalogue is searched with. Storage itself is the host
//! layer's concern; the rules on these values are verified here.
use vstd::prelude::*;
use vstd::string::StrSliceExecFns;
use vstd::string::StringExecFns;
use crate::format::{AudioFormat, SampleFormat};
use crate::textutil::{after_last, spec_after_last, spec_digits, u64_to_string};

verus! {

/// One audio file in the catalogue. Times are seconds since the epoch,
/// durations milliseconds.
#[derive(Debug, Clone)]
pub struct Track {
    pub id: i64,
    pub path: String,
    pub title: String,
    pub artist_id: Option<i64>,
    pub album_id: Option<i64>,
    pub track_number: Option<u32>,
    pub disc_number: Option<u32>,
    pub duration_ms: Option<u64>,
    pub sample_rate: Option<u32>,
    pub bit_depth: Option<u8>,
    pub channels: Option<u8>,
    pub bitrate: Option<u32>,
    pub file_size: u64,
    pub modified_time: u64,
    pub added_time: u64,
    pub last_played: Option<u64>,
    pub play_count: u32,
    pub rating: Option<u8>,
    pub genre: Option<String>,
    pub year: Option<u32>,
}

/// The sample encoding a catalogued bit depth stands for; unknown depths
/// fall back to 16-bit.
pub open spec fn spec_sample_format_for_depth(bits: u8) -> SampleFormat {
    if bits == 8 {
        SampleFormat::U8
    } else if bits == 16 {
        SampleFormat::S16
    } else if bits == 24 {
        SampleFormat::S24
    } else if bits == 32 {
        SampleFormat::S32
    } else {
        SampleFormat::S16
    }
}

impl Track {
    pub fn new(path: String) -> (r: Self)
        ensures
            r.id == 0,
            r.path == path,
            r.title@ == Seq::<char>::empty(),
            r.artist_id is None,
            r.album_id is None,
            r.track_number is None,
            r.disc_number is None,
            r.duration_ms is None,
            r.sample_rate is None,
            r.bit_depth is None,
            r.channels is None,
            r.bitrate is None,
            r.file_size == 0,
            r.modified_time == 0,
            r.added_time == 0,
            r.last_played is None,
            r.play_count == 0,
            r.rating is None,
            r.genre is None,
            r.year is None,
    {
        Self {
            id: 0,
            path,
            title: String::new(),
            artist_id: None,
            album_id: None,
            track_number: None,
            disc_number: None,
            duration_ms: None,
            sample_rate: None,
            bit_depth: None,
            channels: None,
            bitrate: None,
            file_size: 0,
            modified_time: 0,
            added_time: 0,
            last_played: None,
            play_count: 0,
            rating: None,
            genre: None,
            year: None,
        }
    }

    /// What the track is shown as: its title; with an empty title, the
    /// path's file name; failing both, "Unknown".
    pub open spec fn spec_display_title(self) -> Seq<char> {
        if self.title@.len() > 0 {
            self.title@
        } else {
            let name = self.path@.skip(spec_after_last(self.path@, '/'));
            if name.len() == 0 {
                "Unknown"@
            } else {
                name
            }
        }
    }

    pub fn display_title(&self) -> (r: String)
        ensures
            r@ == self.spec_display_title(),
    {
        if !self.title.as_str().is_empty() {
            self.title.clone()
        } else {
            let p = self.path.as_str();
            let (start, _) = after_last(p, '/');
            let n = p.unicode_len();
            let name = p.substring_char(start, n);
            proof {
                assert(name@ =~= self.path@.skip(spec_after_last(self.path@, '/')));
            }
            if name.is_empty() {
                "Unknown".to_owned()
            } else {
                name.to_owned()
            }
        }
    }

    /// The format summary: rate, depth and channel count, each when known,
    /// joined by ", "; "Unknown" when none is.
    pub open spec fn spec_format_info(self) -> Seq<char> {
        let s1 = if self.sample_rate is Some {
            spec_digits(self.sample_rate->0 as nat) + "Hz"@
        } else {
            Seq::<char>::empty()
        };
        let s2 = if self.bit_depth is Some {
            (if s1.len() > 0 {
                s1 + ", "@
            } else {
                s1
            }) + spec_digits(self.bit_depth->0 as nat) + "bit"@
        } else {
            s1
        };
        let s3 = if self.channels is Some {
            (if s2.len() > 0 {
                s2 + ", "@
            } else {
                s2
            }) + spec_digits(self.channels->0 as nat) + "ch"@
        } else {
            s2
        };
        if s3.len() == 0 {
            "Unknown"@
        } else {
            s3
        }
    }

    pub fn format_info(&self) -> (r: String)
        ensures
            r@ == self.spec_format_info(),
    {
        let mut info = String::new();
        if let Some(sr) = self.sample_rate {
            let digits = u64_to_string(sr as u64);
            info.append(digits.as_str());
            info.append("Hz");
        }
        if let Some(bits) = self.bit_depth {
            if !info.as_str().is_empty() {
                info.append(", ");
            }
            let digits = u64_to_string(bits as u64);
            info.append(digits.as_str());
            info.append("bit");
        }
        if let Some(ch) = self.channels {
            if !info.as_str().is_empty() {
                info.append(", ");
            }
            let digits = u64_to_string(ch as u64);
            info.append(digits.as_str());
            info.append("ch");
        }
        if info.as_str().is_empty() {
            info = "Unknown".to_owned();
        }
        info
    }

    /// The playback format of the catalogued facts, when rate, channels and
    /// depth are all known.
    pub fn audio_format(&self) -> (r: Option<AudioFormat>)
        ensures
            r == match (self.sample_rate, self.channels, self.bit_depth) {
                (Some(sr), Some(ch), Some(bits)) => Some(
                    AudioFormat {
                        sample_rate: sr,
                        channels: ch as u16,
                        sample_format: spec_sample_format_for_depth(bits),
                    },
                ),
                _ => None::<AudioFormat>,
            },
    {
        if let (Some(sample_rate), Some(channels), Some(bit_depth)) = (
            self.sample_rate,
            self.channels,
            self.bit_depth,
        ) {
            let sample_format = match bit_depth {
                8 => SampleFormat::U8,
                16 => SampleFormat::S16,
                24 => SampleFormat::S24,
                32 => SampleFormat::S32,
                _ => SampleFormat::S16,
            };
            Some(AudioFormat::new(sample_rate, channels as u16, sample_format))
        } else {
            None
        }
    }
}

#[derive(Debug, Clone)]
pub struct Artist {
    pub id: i64,
    pub name: String,
    pub sort_name: Option<String>,
    pub album_count: u32,
    pub track_count: u32,
    pub added_time: u64,
}

impl Artist {
    pub fn new(name: String) -> (r: Self)
        ensures
            r.id == 0,
            r.name == name,
            r.sort_name is None,
            r.album_count == 0,
            r.track_count == 0,
            r.added_time == 0,
    {
        Self { id: 0, name, sort_name: None, album_count: 0, track_count: 0, added_time: 0 }
    }

    /// The sort name when one is set, else the name.
    pub fn display_name(&self) -> (r: String)
        ensures
            r@ == match self.sort_name {
                Some(ref s) => s@,
                None => self.name@,
            },
    {
        match &self.sort_name {
            Some(s) => s.clone(),
            None => self.name.clone(),
        }
    }
}

#[derive(Debug, Clone)]
pub struct Album {
    pub id: i64,
    pub title: String,
    pub artist_id: Option<i64>,
    pub artist_name: Option<String>,
    pub year: Option<u32>,
    pub genre: Option<String>,
    pub track_count: u32,
    pub total_duration_ms: Option<u64>,
    pub cover_art_path: Option<String>,
    pub added_time: u64,
}

impl Album {
    pub fn new(title: String) -> (r: Self)
        ensures
            r.id == 0,
            r.title == title,
            r.artist_id is None,
            r.artist_name is None,
            r.year is None,
            r.genre is None,
            r.track_count == 0,
            r.total_duration_ms is None,
            r.cover_art_path is None,
            r.added_time == 0,
    {
        Self {
            id: 0,
            title,
            artist_id: None,
            artist_name: None,
            year: None,
            genre: None,
            track_count: 0,
            total_duration_ms: None,
            cover_art_path: None,
            added_time: 0,
        }
    }

    /// The title, with the year in parentheses when one is known.
    pub fn display_title(&self) -> (r: String)
        ensures
            r@ == match self.year {
                Some(y) => self.title@ + " ("@ + spec_digits(y as nat) + ")"@,
                None => self.title@,
            },
    {
        match self.year {
            Some(y) => {
                let mut s = self.title.clone();
                s.append(" (");
                let digits = u64_to_string(y as u64);
                s.append(digits.as_str());
                s.append(")");
                s
            }
            None => self.title.clone(),
        }
    }
}

#[derive(Debug, Clone)]
pub struct Playlist {
    pub id: i64,
    pub name: String,
    pub description: Option<String>,
    pub track_ids: Vec<i64>,
    pub created_time: u64,
    pub modified_time: u64,
}

impl Playlist {
    pub fn new(name: String) -> (r: Self)
        ensures
            r.id == 0,
            r.name == name,
            r.description is None,
            r.track_ids@ == Seq::<i64>::empty(),
            r.created_time == 0,
            r.modified_time == 0,
    {
        Self {
            id: 0,
            name,
            description: None,
            track_ids: Vec::new(),
            created_time: 0,
            modified_time: 0,
        }
    }

    /// Append the track unless it is already listed.
    pub fn add_track(&mut self, track_id: i64)
        ensures
            old(self).track_ids@.contains(track_id) ==> final(self).track_ids@ == old(
                self,
            ).track_ids@,
            !old(self).track_ids@.contains(track_id) ==> final(self).track_ids@ == old(
                self,
            ).track_ids@.push(track_id),
            final(self).name == old(self).name,
            final(self).id == old(self).id,
            final(self).description == old(self).description,
            final(self).created_time == old(self).created_time,
            final(self).modified_time == old(self).modified_time,
    {
        let mut i: usize = 0;
        while i < self.track_ids.len()
            invariant
                i <= self.track_ids@.len(),
                self.track_ids@ == old(self).track_ids@,
                self.name == old(self).name,
                self.id == old(self).id,
                self.description == old(self).description,
                self.created_time == old(self).created_time,
                self.modified_time == old(self).modified_time,
                forall|j: int| 0 <= j < i ==> self.track_ids@[j] != track_id,
            decreases self.track_ids@.len() - i,
        {
            if self.track_ids[i] == track_id {
                return ;
            }
            i = i + 1;
        }
        proof {
            assert(!old(self).track_ids@.contains(track_id));
        }
        self.track_ids.push(track_id);
    }

    /// Drop every occurrence of the track.
    pub fn remove_track(&mut self, track_id: i64)
        ensures
            final(self).track_ids@ == old(self).track_ids@.filter(
                |id: i64| id != track_id,
            ),
            final(self).name == old(self).name,
            final(self).id == old(self).id,
            final(self).description == old(self).description,
            final(self).created_time == old(self).created_time,
            final(self).modified_time == old(self).modified_time,
    {
        let ghost keep = |id: i64| id != track_id;
        let mut kept: Vec<i64> = Vec::new();
        let mut i: usize = 0;
        while i < self.track_ids.len()
            invariant
                i <= self.track_ids@.len(),
                self.track_ids@ == old(self).track_ids@,
                self.name == old(self).name,
                self.id == old(self).id,
                self.description == old(self).description,
                self.created_time == old(self).created_time,
                self.modified_time == old(self).modified_time,
                kept@ == self.track_ids@.take(i as int).filter(keep),
                keep == (|id: i64| id != track_id),
            decreases self.track_ids@.len() - i,
        {
            proof {
                lemma_filter_take_step(self.track_ids@, keep, i as int);
            }
            if self.track_ids[i] != track_id {
                kept.push(self.track_ids[i]);
            }
            i = i + 1;
        }
        proof {
            assert(self.track_ids@.take(self.track_ids@.len() as int) =~= self.track_ids@);
        }
        self.track_ids = kept;
    }

    pub fn track_count(&self) -> (r: usize)
        ensures
            r == self.track_ids@.len(),
    {
        self.track_ids.len()
    }
}

/// Filtering a longer prefix appends the new element exactly when the
/// predicate keeps it.
pub proof fn lemma_filter_take_step<T>(s: Seq<T>, p: spec_fn(T) -> bool, i: int)
    requires
        0 <= i < s.len(),
    ensures
        s.take(i + 1).filter(p) == if p(s[i]) {
            s.take(i).filter(p).push(s[i])
        } else {
            s.take(i).filter(p)
        },
{
    assert(s.take(i + 1).drop_last() =~= s.take(i));
    assert(s.take(i + 1).last() == s[i]);
    reveal(Seq::filter);
}

/// Catalogue totals. Durations are milliseconds, times seconds since the
/// epoch.
#[derive(Debug, Clone)]
pub struct LibraryStats {
    pub total_tracks: u64,
    pub total_artists: u64,
    pub total_albums: u64,
    pub total_playlists: u64,
    pub total_duration_ms: u64,
    pub total_size: u64,
    pub last_scan_time: Option<u64>,
    pub scan_in_progress: bool,
}

impl Default for LibraryStats {
    fn default() -> (r: Self)
        ensures
            r.total_tracks == 0,
            r.total_artists == 0,
            r.total_albums == 0,
            r.total_playlists == 0,
            r.total_duration_ms == 0,
            r.total_size == 0,
            r.last_scan_time is None,
            !r.scan_in_progress,
    {
        Self {
            total_tracks: 0,
            total_artists: 0,
            total_albums: 0,
            total_playlists: 0,
            total_duration_ms: 0,
            total_size: 0,
            last_scan_time: None,
            scan_in_progress: false,
        }
    }
}

/// A catalogue search: the query text, which fields it applies to, and the
/// result window.
#[derive(Debug, Clone)]
pub struct SearchQuery {
    pub query: String,
    pub search_in_title: bool,
    pub search_in_artist: bool,
    pub search_in_album: bool,
    pub search_in_genre: bool,
    pub limit: Option<usize>,
    pub offset: Option<usize>,
}

impl Default for SearchQuery {
    fn default() -> (r: Self)
        ensures
            r.query@ == Seq::<char>::empty(),
            r.search_in_title,
            r.search_in_artist,
            r.search_in_album,
            !r.search_in_genre,
            r.limit == Some(100usize),
            r.offset == Some(0usize),
    {
        Self {
            query: String::new(),
            search_in_title: true,
            search_in_artist: true,
            search_in_album: true,
            search_in_genre: false,
            limit: Some(100),
            offset: Some(0),
        }
    }
}

impl SearchQuery {
    pub fn new(query: String) -> (r: Self)
        ensures
            r.query == query,
            r.search_in_title,
            r.search_in_artist,
            r.search_in_album,
            !r.search_in_genre,
            r.limit == Some(100usize),
            r.offset == Some(0usize),
    {
        Self { query, ..Self::default() }
    }

    pub fn with_limit(self, limit: usize) -> (r: Self)
        ensures
            r.limit == Some(limit),
            r.query == self.query,
            r.offset == self.offset,
            r.search_in_title == self.search_in_title,
            r.search_in_artist == self.search_in_artist,
            r.search_in_album == self.search_in_album,
            r.search_in_genre == self.search_in_genre,
    {
        Self { limit: Some(limit), ..self }
    }

    pub fn with_offset(self, offset: usize) -> (r: Self)
        ensures
            r.offset == Some(offset),
            r.query == self.query,
            r.limit == self.limit,
            r.search_in_title == self.search_in_title,
            r.search_in_artist == self.search_in_artist,
            r.search_in_album == self.search_in_album,
            r.search_in_genre == self.search_in_genre,
    {
        Self { offset: Some(offset), ..self }
    }

    /// Search every field.
    pub fn search_in_all(self) -> (r: Self)
        ensures
            r.search_in_title,
            r.search_in_artist,
            r.search_in_album,
            r.search_in_genre,
            r.query == self.query,
            r.limit == self.limit,
            r.offset == self.offset,
    {
        Self {
            search_in_title: true,
            search_in_artist: true,
            search_in_album: true,
            search_in_genre: true,
            ..self
        }
    }
}

#[derive(Debug, Clone, Copy, PartialEq, Eq, Structural)]
pub enum SortField {
    Title,
    Artist,
    Album,
    Year,
    Duration,
    AddedTime,
    PlayCount,
    Rating,
}

#[derive(Debug, Clone, Copy, PartialEq, Eq, Structural)]
pub struct SortOrder {
    pub field: SortField,
    pub ascending: bool,
}

impl SortOrder {
    pub fn new(field: SortField, ascending: bool) -> (r: Self)
        ensures
            r.field == field,
            r.ascending == ascending,
    {
        Self { field, ascending }
    }

    pub fn title_asc() -> (r: Self)
        ensures
            r.field == SortField::Title,
            r.ascending,
    {
        Self::new(SortField::Title, true)
    }

    pub fn title_desc() -> (r: Self)
        ensures
            r.field == SortField::Title,
            !r.ascending,
    {
        Self::new(SortField::Title, false)
    }

    pub fn artist_asc() -> (r: Self)
        ensures
            r.field == SortField::Artist,
            r.ascending,
    {
        Self::new(SortField::Artist, true)
    }

    pub fn added_time_desc() -> (r: Self)
        ensures
            r.field == SortField::AddedTime,
            !r.ascending,
    {
        Self::new(SortField::AddedTime, false)
    }
}

} // verus!
