//! A single audio track on the playlist: its metadata, the fallbacks used
//! when a tag is missing, and the small state machine that watches an audio
//! probe until a track's duration and tags have both been seen.

use vstd::prelude::*;
use vstd::string::*;

use crate::text::{last_index_of, spec_last_index};

verus! {

/// The tag values read from an audio file, already reduced to plain values.
/// A field is `None` when the file carries no such tag.
pub struct TagSet {
    pub album: Option<String>,
    pub artist: Option<String>,
    pub album_artist: Option<String>,
    pub title: Option<String>,
    pub track_number: Option<u32>,
    pub year: Option<i32>,
}

/// The `Song` object is a single audio track on the
/// [`Playlist`](crate::playlist::Playlist).
///
/// It stores the path, metadata and duration (in nanoseconds) of the
/// audio file.
pub struct Song {
    /// Path to the audio file
    pub path: String,
    pub album_artist: String,
    pub album_title: String,
    /// "Artist: Title (Year)"
    pub album_info: String,
    pub artist: String,
    pub title: String,
    pub track_number: u32,
    pub year: Option<i32>,
    /// Track duration in nanoseconds
    pub duration: u64,
}

/// The part of `path` after its last `/` (all of it when there is none).
pub open spec fn spec_basename(p: Seq<char>) -> Seq<char> {
    p.skip(spec_last_index(p, '/') + 1)
}

/// `name` with the extension after its last `.` stripped; the whole of
/// `name` when there is no `.`, or only a leading one.
pub open spec fn spec_stem(name: Seq<char>) -> Seq<char> {
    let i = spec_last_index(name, '.');
    if i <= 0 {
        name
    } else {
        name.take(i)
    }
}

/// The title a tagless file falls back to: its base name without the
/// extension.
pub open spec fn spec_title_fallback(p: Seq<char>) -> Seq<char> {
    spec_stem(spec_basename(p))
}

/// Computes the base name of `path` with the extension stripped.
pub fn title_fallback(path: &str) -> (r: String)
    ensures
        r@ == spec_title_fallback(path@),
{
    let n = path.unicode_len();
    let base: &str = match last_index_of(path, '/') {
        Some(i) => path.substring_char(i + 1, n),
        None => path,
    };
    proof {
        assert(base@ =~= spec_basename(path@));
    }
    let m = base.unicode_len();
    let stem: &str = match last_index_of(base, '.') {
        Some(i) => if i > 0 {
            base.substring_char(0, i)
        } else {
            base
        },
        None => base,
    };
    proof {
        assert(stem@ =~= spec_stem(base@));
    }
    stem.to_owned()
}

/// The year rendered in decimal, with a sign for a negative year.
pub open spec fn spec_year_chars(y: int) -> Seq<char> {
    if y < 0 {
        seq!['-'] + crate::text::spec_decimal((-y) as nat)
    } else {
        crate::text::spec_decimal(y as nat)
    }
}

fn year_string(y: i32) -> (r: String)
    ensures
        r@ == spec_year_chars(y as int),
{
    if y < 0 {
        let mut s = String::new();
        s.append("-");
        let m: i64 = -(y as i64);
        let d = crate::text::decimal_string(m as u64);
        s.append(d.as_str());
        proof {
            reveal_strlit("-");
            assert(s@ =~= spec_year_chars(y as int));
        }
        s
    } else {
        crate::text::decimal_string(y as u64)
    }
}

/// The album title after the fallback: "Unknown album" when untagged.
pub open spec fn spec_album_title(t: TagSet) -> Seq<char> {
    match t.album {
        Some(a) => a@,
        None => "Unknown album"@,
    }
}

/// The artist after the fallback: "Unknown artist" when untagged.
pub open spec fn spec_artist(t: TagSet) -> Seq<char> {
    match t.artist {
        Some(a) => a@,
        None => "Unknown artist"@,
    }
}

/// The album artist after the fallback: the (fallback) artist when
/// untagged.
pub open spec fn spec_album_artist(t: TagSet) -> Seq<char> {
    match t.album_artist {
        Some(a) => a@,
        None => spec_artist(t),
    }
}

/// The title after the fallback: the file's base name, extension
/// stripped, when untagged.
pub open spec fn spec_title(t: TagSet, path: Seq<char>) -> Seq<char> {
    match t.title {
        Some(a) => a@,
        None => spec_title_fallback(path),
    }
}

/// The track number after the fallback: zero when untagged.
pub open spec fn spec_track_number(t: TagSet) -> u32 {
    match t.track_number {
        Some(n) => n,
        None => 0,
    }
}

/// The album identity string, the display grouping key and secondary
/// sort key: `"<album-artist>: <album-title>"`, with `" (<year>)"`
/// appended when a year tag is present.
pub open spec fn spec_album_info(t: TagSet) -> Seq<char> {
    let base = spec_album_artist(t) + ": "@ + spec_album_title(t);
    match t.year {
        Some(y) => base + " ("@ + spec_year_chars(y as int) + ")"@,
        None => base,
    }
}

impl Song {
    /// Every field of `self` equals the corresponding field of `s`.
    pub open spec fn same_song(self, s: Song) -> bool {
        &&& self.path@ == s.path@
        &&& self.album_artist@ == s.album_artist@
        &&& self.album_title@ == s.album_title@
        &&& self.album_info@ == s.album_info@
        &&& self.artist@ == s.artist@
        &&& self.title@ == s.title@
        &&& self.track_number == s.track_number
        &&& self.year == s.year
        &&& self.duration == s.duration
    }

    /// The fields `from` promises, given the path, duration and tags a
    /// probe of the file produced.
    pub open spec fn spec_from(self, path: Seq<char>, duration: u64, tags: TagSet) -> bool {
        &&& self.path@ == path
        &&& self.album_artist@ == spec_album_artist(tags)
        &&& self.album_title@ == spec_album_title(tags)
        &&& self.album_info@ == spec_album_info(tags)
        &&& self.artist@ == spec_artist(tags)
        &&& self.title@ == spec_title(tags, path)
        &&& self.track_number == spec_track_number(tags)
        &&& self.year == tags.year
        &&& self.duration == duration
    }

    /// Creates a new `Song` from a file's path, its duration in
    /// nanoseconds, and the tags read from it, applying the documented
    /// fallbacks for missing tags.
    pub fn from(path: String, duration: u64, tags: TagSet) -> (song: Song)
        ensures
            song.spec_from(path@, duration, tags),
    {
        let title = match &tags.title {
            Some(t) => t.clone(),
            None => title_fallback(path.as_str()),
        };
        let album_title = match &tags.album {
            Some(a) => a.clone(),
            None => "Unknown album".to_owned(),
        };
        let artist = match &tags.artist {
            Some(a) => a.clone(),
            None => "Unknown artist".to_owned(),
        };
        let album_artist = match &tags.album_artist {
            Some(a) => a.clone(),
            None => artist.clone(),
        };
        let track_number = match tags.track_number {
            Some(n) => n,
            None => 0,
        };
        let mut album_info = album_artist.clone();
        album_info.append(": ");
        album_info.append(album_title.as_str());
        if let Some(y) = tags.year {
            album_info.append(" (");
            let ys = year_string(y);
            album_info.append(ys.as_str());
            album_info.append(")");
        }
        proof {
            assert(album_info@ =~= spec_album_info(tags));
        }
        Song {
            path,
            album_artist,
            album_title,
            album_info,
            artist,
            title,
            track_number,
            year: tags.year,
            duration,
        }
    }

    /// Returns true when the album is not released by a single artist.
    pub fn part_of_compilation(&self) -> (r: bool)
        ensures
            r == (self.album_artist@ == "Various Artists"@),
    {
        let various: String = "Various Artists".to_owned();
        self.album_artist == various
    }

    /// The title line a display shows for this song: for a compilation
    /// the artist is printed too, otherwise just the song title.
    pub open spec fn spec_full_title(self) -> Seq<char> {
        if self.album_artist@ == "Various Artists"@ {
            self.artist@ + ": "@ + self.title@
        } else {
            self.title@
        }
    }

    /// The full title, truncated to `width` characters with a trailing
    /// ellipsis when it does not fit.
    pub open spec fn spec_display_title(self, width: Option<usize>) -> Seq<char> {
        let full = self.spec_full_title();
        match width {
            Some(w) => if (w as int) < full.len() {
                full.take(w - 1).push('…')
            } else {
                full
            },
            None => full,
        }
    }

    /// Renders the song's title for display, truncating it to `width`
    /// characters (ellipsis included) when one is given and the title is
    /// wider.
    pub fn display_title(&self, width: Option<usize>) -> (r: String)
        requires
            width is Some ==> width->0 >= 1,
        ensures
            r@ == self.spec_display_title(width),
    {
        let mut full: String;
        if self.part_of_compilation() {
            full = self.artist.clone();
            full.append(": ");
            full.append(self.title.as_str());
        } else {
            full = self.title.clone();
        }
        proof {
            assert(full@ =~= self.spec_full_title());
        }
        if let Some(w) = width {
            let n = full.as_str().unicode_len();
            if w < n {
                let mut cut = full.as_str().substring_char(0, w - 1).to_owned();
                cut.append("…");
                proof {
                    reveal_strlit("…");
                    assert(cut@ =~= self.spec_full_title().take(w - 1).push('…'));
                }
                return cut;
            }
        }
        full
    }
}

impl Clone for Song {
    /// An exact copy: every field of the clone equals the original's.
    fn clone(&self) -> (res: Song)
        ensures
            res == *self,
    {
        Song {
            path: self.path.clone(),
            album_artist: self.album_artist.clone(),
            album_title: self.album_title.clone(),
            album_info: self.album_info.clone(),
            artist: self.artist.clone(),
            title: self.title.clone(),
            track_number: self.track_number,
            year: self.year,
            duration: self.duration,
        }
    }
}

/// One message observed on the audio probe's bus, reduced to what the
/// probe logic reacts to.
pub enum ProbeMessage {
    /// A tag list was posted for the stream.
    Tags(TagSet),
    /// The engine reported an unrecoverable error for this file.
    Error,
    /// Any other bus message.
    Other,
}

/// Watches the decoding of one file until both its duration and its tags
/// have been observed, or the engine reports an error, whichever comes
/// first. The caller feeds in each bus message together with the result
/// of a fresh duration query.
pub struct TrackProbe {
    pub duration: Option<u64>,
    pub tags: Option<TagSet>,
    pub failed: bool,
}

impl TrackProbe {
    /// A probe that has seen nothing yet.
    pub fn new() -> (r: TrackProbe)
        ensures
            r.duration is None,
            r.tags is None,
            !r.failed,
    {
        TrackProbe { duration: None, tags: None, failed: false }
    }

    /// Ingests one bus message, then the result of a duration query made
    /// after it. Returns true when decoding should stop: either the
    /// probe failed, or duration and tags have both been seen.
    ///
    /// A duration query result is only recorded while no duration has
    /// been seen; on an error nothing further is recorded.
    pub fn step(&mut self, msg: ProbeMessage, queried: Option<u64>) -> (stop: bool)
        ensures
            final(self).failed == (old(self).failed || msg is Error),
            msg is Error ==> (final(self).tags == old(self).tags
                && final(self).duration == old(self).duration),
            !(msg is Error) ==> final(self).tags == (if msg is Tags {
                Some(msg->Tags_0)
            } else {
                old(self).tags
            }),
            !(msg is Error) ==> final(self).duration == (if old(self).duration is Some {
                old(self).duration
            } else {
                queried
            }),
            stop == (final(self).failed || (final(self).duration is Some
                && final(self).tags is Some)),
    {
        match msg {
            ProbeMessage::Error => {
                self.failed = true;
                return true;
            },
            ProbeMessage::Tags(t) => {
                self.tags = Some(t);
            },
            ProbeMessage::Other => {},
        }
        if self.duration.is_none() {
            self.duration = queried;
        }
        self.failed || (self.duration.is_some() && self.tags.is_some())
    }

    /// What the probe produced: the duration and tags when both were
    /// seen before any error, and nothing otherwise (the file is then
    /// quietly excluded from the playlist).
    pub fn finish(self) -> (r: Option<(u64, TagSet)>)
        ensures
            r is Some <==> (!self.failed && self.duration is Some && self.tags is Some),
            r is Some ==> ((r->0).0 == self.duration->0 && (r->0).1 == self.tags->0),
    {
        if self.failed {
            return None;
        }
        match (self.duration, self.tags) {
            (Some(d), Some(t)) => Some((d, t)),
            _ => None,
        }
    }
}

} // verus!
