//! What the terminal display shows, computed as plain values: the
//! album-grouped list of lines, the window of it that fits the terminal
//! with the playing song kept visible, the transport icon, and the text
//! of each song line. Writing to the terminal, colors and cursor moves
//! live outside the library.

use vstd::prelude::*;
use vstd::string::*;

use crate::backend::BackendState;
use crate::playlist::Playlist;
use crate::song::Song;
use crate::text::{pad_left, pad_right, spec_pad_left, spec_pad_right};
use crate::traits::{spec_pretty_nanos, PrettyDuration};

verus! {

/// The icon drawn in front of the currently playing line.
#[derive(PartialEq, Eq, Structural, Clone, Copy, Debug)]
pub enum PlayingIcon {
    /// Playing with the output muted
    Muted,
    /// Playing audibly
    Playing,
    /// Paused
    Paused,
}

/// Which icon a transport snapshot shows.
pub open spec fn spec_playing_icon(playing: bool, muted: bool) -> PlayingIcon {
    if !playing {
        PlayingIcon::Paused
    } else if muted {
        PlayingIcon::Muted
    } else {
        PlayingIcon::Playing
    }
}

/// Picks the icon for the current transport snapshot.
pub fn playing_icon(state: &BackendState) -> (r: PlayingIcon)
    ensures
        r == spec_playing_icon(state.playing, state.muted),
{
    match (state.playing, state.muted) {
        (true, true) => PlayingIcon::Muted,
        (true, false) => PlayingIcon::Playing,
        (false, _) => PlayingIcon::Paused,
    }
}

/// One line of the playlist display.
pub enum DisplayLine {
    /// An album identity heading
    Album(String),
    /// The song at this playlist index; the flag is true when it is the
    /// one currently being played
    Song(bool, usize),
}

/// Every song line points into the store and flags exactly the cursor.
pub open spec fn songs_ok(lines: Seq<DisplayLine>, store: Seq<Song>, cursor: int) -> bool {
    forall|k: int| 0 <= k < lines.len() ==> (#[trigger] lines[k] matches DisplayLine::Song(p, i)
        ==> (i < store.len() && (p <==> i == cursor)))
}

/// Every album heading is followed by a song of that very album.
pub open spec fn headers_ok(lines: Seq<DisplayLine>, store: Seq<Song>) -> bool {
    forall|k: int| 0 <= k < lines.len() ==> (#[trigger] lines[k] matches DisplayLine::Album(a)
        ==> (k + 1 < lines.len() && (lines[k + 1] matches DisplayLine::Song(p, i)
            && i < store.len() && store[i as int].album_info@ == a@)))
}

/// Consecutive song lines walk the store in order and stay within one
/// album.
pub open spec fn adjacency_ok(lines: Seq<DisplayLine>, store: Seq<Song>) -> bool {
    forall|k: int| 0 <= k < lines.len() - 1 ==> (#[trigger] lines[k] matches DisplayLine::Song(
        p, i,
    ) ==> (lines[k + 1] matches DisplayLine::Song(q, j) ==> (i < j && j == i + 1 && j
        < store.len() && store[i as int].album_info@ == store[j as int].album_info@)))
}

/// An album heading between two song lines marks a real album change.
pub open spec fn boundary_ok(lines: Seq<DisplayLine>, store: Seq<Song>) -> bool {
    forall|k: int| 0 <= k < lines.len() - 2 ==> (#[trigger] lines[k] matches DisplayLine::Song(
        p, i,
    ) ==> (lines[k + 1] is Album ==> (lines[k + 2] matches DisplayLine::Song(q, j) ==> (i < j
        && j == i + 1 && j < store.len() && store[i as int].album_info@ != store[
        j as int].album_info@))))
}

/// Returns the album-grouped lines of the whole playlist and the index
/// of the line showing the currently played song. Each album's songs
/// stand under one heading carrying the album identity string, in
/// playlist order.
pub fn layout(playlist: &Playlist) -> (r: (Vec<DisplayLine>, usize))
    requires
        playlist.wf(),
    ensures
        songs_ok(r.0@, playlist.store@, playlist.currently_playing as int),
        headers_ok(r.0@, playlist.store@),
        adjacency_ok(r.0@, playlist.store@),
        boundary_ok(r.0@, playlist.store@),
        r.0@.len() > 0 && r.0@[0] is Album,
        (r.0@.last() matches DisplayLine::Song(p, i) && i == playlist.store@.len() - 1),
        r.1 < r.0@.len() && (r.0@[r.1 as int] matches DisplayLine::Song(p, i) && p && i
            == playlist.currently_playing),
{
    let n = playlist.store.len();
    let cursor = playlist.currently_playing;
    let mut lines: Vec<DisplayLine> = Vec::new();
    let mut center: usize = 0;
    let mut i: usize = 0;
    while i < n
        invariant
            i <= n,
            n == playlist.store@.len(),
            cursor == playlist.currently_playing,
            cursor < n,
            songs_ok(lines@, playlist.store@, cursor as int),
            headers_ok(lines@, playlist.store@),
            adjacency_ok(lines@, playlist.store@),
            boundary_ok(lines@, playlist.store@),
            i == 0 ==> lines@.len() == 0,
            i > 0 ==> (lines@.len() > 1 && lines@[0] is Album && (lines@.last() matches
                DisplayLine::Song(p, j) && j == i - 1)),
            cursor < i ==> (center < lines@.len() && (lines@[center as int] matches
                DisplayLine::Song(p, c) && p && c == cursor)),
            cursor >= i ==> center == 0,
        decreases n - i,
    {
        let new_album = if i == 0 {
            true
        } else {
            !(playlist.store[i].album_info == playlist.store[i - 1].album_info)
        };
        if new_album {
            lines.push(DisplayLine::Album(playlist.store[i].album_info.clone()));
        }
        if i == cursor {
            center = lines.len();
        }
        lines.push(DisplayLine::Song(i == cursor, i));
        i = i + 1;
    }
    (lines, center)
}

/// The part of the lines that is printed: all of them when they fit the
/// terminal, else a window of `height` lines that keeps the line at
/// `center` visible, centered when possible and clamped at either end.
pub open spec fn spec_visible_range(len: int, center: int, height: int) -> (int, int) {
    if len <= height {
        (0, len)
    } else if len - center < height / 2 {
        (len - height, len)
    } else {
        let start = if center >= height / 2 {
            center - height / 2
        } else {
            0
        };
        let end = if start + height <= len {
            start + height
        } else {
            len
        };
        (start, end)
    }
}

/// Computes which slice of the `len` display lines to print on a
/// terminal of `height` rows so that the line at `center` stays
/// visible: the window never leaves `[0, len]`, is never taller than
/// the terminal, and always contains `center`.
pub fn visible_range(len: usize, center: usize, height: usize) -> (r: (usize, usize))
    requires
        center < len,
        height >= 1,
    ensures
        (r.0 as int, r.1 as int) == spec_visible_range(len as int, center as int, height as int),
        r.0 <= center < r.1 <= len,
        r.1 - r.0 <= height,
        len <= height ==> (r.0 == 0 && r.1 == len),
{
    if len <= height {
        (0, len)
    } else if len - center < height / 2 {
        (len - height, len)
    } else {
        let start = if center >= height / 2 {
            center - height / 2
        } else {
            0
        };
        let end = if len - start >= height {
            start + height
        } else {
            len
        };
        (start, end)
    }
}

/// The "position/duration" readout shown on the playing line.
pub open spec fn spec_time_readout(position: u64, duration: u64) -> Seq<char> {
    spec_pretty_nanos(position) + seq!['/'] + spec_pretty_nanos(duration)
}

/// The text of the line for a song that is not being played: the track
/// number right-aligned to six columns, the title padded to fill the
/// row, and the duration right-aligned at the end.
pub open spec fn spec_song_line(song: Song, width: int) -> Seq<char> {
    let dur = spec_pretty_nanos(song.duration);
    let title_width = width - 9 - dur.len();
    spec_pad_left(crate::text::spec_decimal(song.track_number as nat), 6) + seq![' ']
        + spec_pad_right(song.spec_display_title(Some(title_width as usize)), title_width as nat)
        + seq![' '] + spec_pad_left(dur, (dur.len() + 1) as nat)
}

/// Renders the line for a song that is not being played. `width` is the
/// terminal's width in columns and must leave room for the fixed
/// columns around the title.
pub fn format_song(song: &Song, width: usize) -> (r: String)
    requires
        width >= 10 + spec_pretty_nanos(song.duration).len(),
        width <= usize::MAX,
    ensures
        r@ == spec_song_line(*song, width as int),
{
    let dur = song.duration.pretty();
    let dlen = dur.as_str().unicode_len();
    let title_width = width - 9 - dlen;
    let mut line = pad_left(crate::text::decimal_string(song.track_number as u64).as_str(), 6);
    line.append(" ");
    let title = song.display_title(Some(title_width));
    let padded = pad_right(title.as_str(), title_width);
    line.append(padded.as_str());
    line.append(" ");
    let tail = pad_left(dur.as_str(), dlen + 1);
    line.append(tail.as_str());
    proof {
        reveal_strlit(" ");
        assert(line@ =~= spec_song_line(*song, width as int));
    }
    line
}

/// The text of the line for the currently playing song: the track
/// number right-aligned to three columns, the title, and the
/// "position/duration" readout at the end. The icon and its colors are
/// drawn by the display in front of this text.
pub open spec fn spec_playing_song_line(song: Song, state: BackendState, width: int) -> Seq<char> {
    let time = spec_time_readout(state.position, song.duration);
    let title_width = width - 9 - time.len();
    spec_pad_left(crate::text::spec_decimal(song.track_number as nat), 3) + seq![' ']
        + spec_pad_right(song.spec_display_title(Some(title_width as usize)), title_width as nat)
        + seq![' '] + spec_pad_left(time, (time.len() + 1) as nat)
}

/// Renders the line for the currently playing song.
pub fn format_playing_song(song: &Song, state: &BackendState, width: usize) -> (r: String)
    requires
        width >= 10 + spec_time_readout(state.position, song.duration).len(),
        width <= usize::MAX,
    ensures
        r@ == spec_playing_song_line(*song, *state, width as int),
{
    let mut time = state.position.pretty();
    time.append("/");
    let dur = song.duration.pretty();
    time.append(dur.as_str());
    proof {
        reveal_strlit("/");
        assert(time@ =~= spec_time_readout(state.position, song.duration));
    }
    let tlen = time.as_str().unicode_len();
    let title_width = width - 9 - tlen;
    let mut line = pad_left(crate::text::decimal_string(song.track_number as u64).as_str(), 3);
    line.append(" ");
    let title = song.display_title(Some(title_width));
    let padded = pad_right(title.as_str(), title_width);
    line.append(padded.as_str());
    line.append(" ");
    let tail = pad_left(time.as_str(), tlen + 1);
    line.append(tail.as_str());
    proof {
        reveal_strlit(" ");
        assert(line@ =~= spec_playing_song_line(*song, *state, width as int));
    }
    line
}

/// The fixed help text: a heading and one line per key binding, with
/// blank lines around the heading, padded with blank lines to fill a
/// terminal of `height` rows.
pub fn help_lines(height: usize) -> (r: Vec<String>)
    ensures
        r@.len() == (if height > 7 { height as int } else { 7 }),
        r@[0]@ == ""@,
        r@[1]@ == "Keyboard shortcuts"@,
        r@[2]@ == ""@,
        r@[3]@ == " k or up arrow     previous song"@,
        r@[4]@ == " j or down arrow   next song"@,
        r@[5]@ == " h or left arrow   seek backwards"@,
        r@[6]@ == " l or right arrow  seek forward"@,
        forall|k: int| 7 <= k < r@.len() ==> (#[trigger] r@[k])@ == ""@,
{
    let mut r: Vec<String> = Vec::new();
    r.push("".to_owned());
    r.push("Keyboard shortcuts".to_owned());
    r.push("".to_owned());
    r.push(" k or up arrow     previous song".to_owned());
    r.push(" j or down arrow   next song".to_owned());
    r.push(" h or left arrow   seek backwards".to_owned());
    r.push(" l or right arrow  seek forward".to_owned());
    while r.len() < height
        invariant
            r@.len() >= 7,
            r@[0]@ == ""@,
            r@[1]@ == "Keyboard shortcuts"@,
            r@[2]@ == ""@,
            r@[3]@ == " k or up arrow     previous song"@,
            r@[4]@ == " j or down arrow   next song"@,
            r@[5]@ == " h or left arrow   seek backwards"@,
            r@[6]@ == " l or right arrow  seek forward"@,
            forall|k: int| 7 <= k < r@.len() ==> (#[trigger] r@[k])@ == ""@,
            height > 7 ==> r@.len() <= height,
            height <= 7 ==> r@.len() == 7,
        decreases height - r@.len(),
    {
        r.push("".to_owned());
    }
    r
}

} // verus!
