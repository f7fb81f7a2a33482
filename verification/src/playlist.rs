//! Keeps track of the contents of and position in the playlist.
//!
//! The playlist is built from the results of extracting metadata from many
//! files in parallel. The workers finish in no particular order, so the
//! final track order is produced by a stable sort on the key
//! `(argument index, album identity string, track number)`; the argument
//! index is the position of the command line argument a file came from.

use vstd::prelude::*;

use itertools::Itertools;

use crate::song::Song;

verus! {

/// One surviving extraction result: the index of the command line
/// argument the file came from, and the song built from the file.
pub struct Entry {
    pub arg: usize,
    pub song: Song,
}

/// Lexicographic order on character sequences by code point, the order
/// in which album identity strings are compared.
pub open spec fn lex_le(a: Seq<char>, b: Seq<char>) -> bool
    decreases a.len(),
{
    if a.len() == 0 {
        true
    } else if b.len() == 0 {
        false
    } else if a[0] == b[0] {
        lex_le(a.drop_first(), b.drop_first())
    } else {
        (a[0] as u32) < (b[0] as u32)
    }
}

/// Strict lexicographic order.
pub open spec fn lex_lt(a: Seq<char>, b: Seq<char>) -> bool {
    lex_le(a, b) && a != b
}

/// Two entries agree on the whole sort key.
pub open spec fn same_key(x: Entry, y: Entry) -> bool {
    &&& x.arg == y.arg
    &&& x.song.album_info@ == y.song.album_info@
    &&& x.song.track_number == y.song.track_number
}

/// The sort order of the playlist: by original argument index first,
/// then by album identity string, then by track number.
pub open spec fn key_le(x: Entry, y: Entry) -> bool {
    ||| x.arg < y.arg
    ||| (x.arg == y.arg && lex_lt(x.song.album_info@, y.song.album_info@))
    ||| (x.arg == y.arg && x.song.album_info@ == y.song.album_info@
        && x.song.track_number <= y.song.track_number)
}

/// The sequence is ordered by `key_le`.
pub open spec fn sorted_entries(s: Seq<Entry>) -> bool {
    forall|i: int, j: int| 0 <= i <= j < s.len() ==> #[trigger] key_le(s[i], s[j])
}

/// Holds of the entries that carry exactly the key `(a, t, n)`.
pub open spec fn key_pred(a: int, t: Seq<char>, n: int) -> spec_fn(Entry) -> bool {
    |e: Entry| e.arg == a && e.song.album_info@ == t && e.song.track_number == n
}

/// The entries of `s` that carry exactly the key `(a, t, n)`, in the
/// order they appear in `s`.
pub open spec fn filter_key(s: Seq<Entry>, a: int, t: Seq<char>, n: int) -> Seq<Entry> {
    s.filter(key_pred(a, t, n))
}

/// The extraction results that produced a song, paired with their
/// argument index; failed extractions are dropped.
pub open spec fn spec_playable(results: Seq<(usize, Option<Song>)>) -> Seq<Entry> {
    results.filter(|p: (usize, Option<Song>)| p.1 is Some).map_values(
        |p: (usize, Option<Song>)| Entry { arg: p.0, song: p.1->0 },
    )
}

/// Computes the sort key of an entry as plain values.
fn entry_key(e: &Entry) -> (k: (usize, String, u32))
    ensures
        k.0 == e.arg,
        k.1@ == e.song.album_info@,
        k.2 == e.song.track_number,
{
    (e.arg, e.song.album_info.clone(), e.song.track_number)
}

/// Relies on itertools' `sorted_by_key`, a stable sort by the extracted
/// key: the result is ordered by the key, and the entries of each key
/// keep the order they had in the input, so for every key the filtered
/// subsequences of input and output agree. Rust compares the `String`
/// component by its UTF-8 bytes, which is the code point order `lex_le`
/// takes on the characters, and compares tuples lexicographically, which
/// is `key_le`.
#[verifier::external_body]
fn sorted_by_entry_key(v: Vec<Entry>) -> (r: Vec<Entry>)
    ensures
        sorted_entries(r@),
        r@.len() == v@.len(),
        forall|a: int, t: Seq<char>, n: int|
            #[trigger] filter_key(r@, a, t, n) == filter_key(v@, a, t, n),
{
    v.into_iter().sorted_by_key(|e: &Entry| entry_key(e)).collect()
}

/// Keeps track of the contents of and position in the playlist.
pub struct Playlist {
    pub store: Vec<Song>,
    pub currently_playing: usize,
    /// The ordered entries the songs came from, with their argument
    /// indices, kept to state how the store is ordered.
    pub entries: Ghost<Seq<Entry>>,
}

impl Playlist {
    /// The playlist's invariant: the store is the song of each ordered
    /// entry, the entries are sorted by the playlist order, and the
    /// cursor is a valid index (a playlist is never empty).
    pub open spec fn wf(self) -> bool {
        &&& self.store@ == self.entries@.map_values(|e: Entry| e.song)
        &&& sorted_entries(self.entries@)
        &&& self.currently_playing < self.store@.len()
    }

    /// Converts extraction results into a `Playlist`. A file that could
    /// not be opened as an audio stream arrives as `None` and is quietly
    /// ignored. The surviving songs are sorted by
    ///   1. the original order (the order of command line arguments),
    ///   2. the album identity string,
    ///   3. the track number,
    /// with ties kept in arrival order, and the cursor starts at the
    /// first track. Returns `None` when no file was playable.
    pub fn from(results: Vec<(usize, Option<Song>)>) -> (r: Option<Playlist>)
        ensures
            r is Some <==> spec_playable(results@).len() > 0,
            r is Some ==> ((r->0).wf() && (r->0).currently_playing == 0
                && (r->0).entries@.len() == spec_playable(results@).len()
                && (forall|a: int, t: Seq<char>, n: int|
                    #[trigger] filter_key((r->0).entries@, a, t, n)
                        == filter_key(spec_playable(results@), a, t, n))),
    {
        let ghost playable = spec_playable(results@);
        let mut kept: Vec<Entry> = Vec::new();
        let mut idx: usize = 0;
        while idx < results.len()
            invariant
                idx <= results@.len(),
                kept@ == spec_playable(results@.take(idx as int)),
            decreases results@.len() - idx,
        {
            proof {
                reveal(Seq::filter);
                assert(results@.take(idx + 1) =~= results@.take(idx as int).push(
                    results@[idx as int]));
            }
            let pair = &results[idx];
            if let Some(song) = &pair.1 {
                kept.push(Entry { arg: pair.0, song: song.clone() });
            }
            proof {
                let p = results@[idx as int];
                let s = results@.take(idx as int);
                let pred = |q: (usize, Option<Song>)| q.1 is Some;
                assert(s.push(p).drop_last() =~= s);
                if p.1 is Some {
                    assert(spec_playable(s.push(p)) =~= spec_playable(s).push(
                        Entry { arg: p.0, song: p.1->0 }));
                } else {
                    assert(spec_playable(s.push(p)) =~= spec_playable(s));
                }
            }
            idx = idx + 1;
        }
        proof {
            assert(results@.take(results@.len() as int) =~= results@);
        }
        let es = sorted_by_entry_key(kept);
        if es.len() == 0 {
            proof {
                assert(playable.len() == 0);
            }
            return None;
        }
        let mut store: Vec<Song> = Vec::new();
        let mut i: usize = 0;
        while i < es.len()
            invariant
                i <= es@.len(),
                store@ == es@.take(i as int).map_values(|e: Entry| e.song),
            decreases es@.len() - i,
        {
            store.push(es[i].song.clone());
            proof {
                assert(es@.take(i + 1) =~= es@.take(i as int).push(es@[i as int]));
                assert(es@.take(i + 1).map_values(|e: Entry| e.song) =~= es@.take(
                    i as int).map_values(|e: Entry| e.song).push(es@[i as int].song));
            }
            i = i + 1;
        }
        proof {
            assert(es@.take(es@.len() as int) =~= es@);
        }
        Some(Playlist { store, currently_playing: 0, entries: Ghost(es@) })
    }

    /// Returns the currently playing song on the playlist.
    /// If the cursor is out of range, returns None.
    pub fn current(&self) -> (r: Option<&Song>)
        ensures
            r is Some <==> self.currently_playing < self.store@.len(),
            r is Some ==> *(r->0) == self.store@[self.currently_playing as int],
    {
        if self.currently_playing < self.store.len() {
            Some(&self.store[self.currently_playing])
        } else {
            None
        }
    }

    /// Returns the next song on the playlist and advances the cursor by
    /// one. If the current song is the last one on the playlist, returns
    /// None and leaves the cursor unchanged. The cursor never leaves
    /// `[0, len)`.
    pub fn next(&mut self) -> (r: Option<&Song>)
        requires
            old(self).wf(),
        ensures
            final(self).wf(),
            final(self).store@ == old(self).store@,
            final(self).entries@ == old(self).entries@,
            old(self).currently_playing + 1 < old(self).store@.len() ==> (
                final(self).currently_playing == old(self).currently_playing + 1
                && r is Some
                && *(r->0) == old(self).store@[old(self).currently_playing + 1]),
            old(self).currently_playing + 1 >= old(self).store@.len() ==> (r is None
                && final(self).currently_playing == old(self).currently_playing),
    {
        let n = self.store.len();
        if self.currently_playing + 1 < n {
            self.currently_playing = self.currently_playing + 1;
            Some(&self.store[self.currently_playing])
        } else {
            None
        }
    }

    /// Returns the previous song on the playlist and moves the cursor
    /// back by one. If the current song is the first one on the
    /// playlist, returns None and leaves the cursor unchanged. The
    /// cursor never leaves `[0, len)`.
    pub fn prev(&mut self) -> (r: Option<&Song>)
        requires
            old(self).wf(),
        ensures
            final(self).wf(),
            final(self).store@ == old(self).store@,
            final(self).entries@ == old(self).entries@,
            old(self).currently_playing > 0 ==> (
                final(self).currently_playing == old(self).currently_playing - 1
                && r is Some
                && *(r->0) == old(self).store@[old(self).currently_playing - 1]),
            old(self).currently_playing == 0 ==> (r is None
                && final(self).currently_playing == 0),
    {
        if self.currently_playing > 0 {
            self.currently_playing = self.currently_playing - 1;
            Some(&self.store[self.currently_playing])
        } else {
            None
        }
    }

    /// Returns the next song on the playlist without altering the
    /// currently playing track: a `&self` lookahead, so the cursor
    /// cannot move. If the current song is the last one on the playlist,
    /// returns None.
    pub fn peek(&self) -> (r: Option<&Song>)
        requires
            self.wf(),
        ensures
            r is Some <==> self.currently_playing + 1 < self.store@.len(),
            r is Some ==> *(r->0) == self.store@[self.currently_playing + 1],
    {
        let n = self.store.len();
        if self.currently_playing + 1 < n {
            Some(&self.store[self.currently_playing + 1])
        } else {
            None
        }
    }

    /// Returns the songs in playlist order, each with a boolean
    /// indicating whether it is the one currently being played.
    pub fn iter(&self) -> (r: Vec<(bool, Song)>)
        ensures
            r@.len() == self.store@.len(),
            forall|i: int| 0 <= i < r@.len() ==> ((#[trigger] r@[i]).1 == self.store@[i]
                && (r@[i].0 <==> i == self.currently_playing)),
    {
        let mut r: Vec<(bool, Song)> = Vec::new();
        let mut i: usize = 0;
        while i < self.store.len()
            invariant
                i <= self.store@.len(),
                r@.len() == i,
                forall|j: int| 0 <= j < i ==> ((#[trigger] r@[j]).1 == self.store@[j]
                    && (r@[j].0 <==> j == self.currently_playing)),
            decreases self.store@.len() - i,
        {
            r.push((i == self.currently_playing, self.store[i].clone()));
            i = i + 1;
        }
        r
    }
}

proof fn lemma_char_code_inj(c: char, d: char)
    requires
        c as u32 == d as u32,
    ensures
        c == d,
{
}

/// Two character sequences below each other lexicographically both ways
/// are equal.
proof fn lemma_lex_le_antisym(a: Seq<char>, b: Seq<char>)
    requires
        lex_le(a, b),
        lex_le(b, a),
    ensures
        a == b,
    decreases a.len(),
{
    if a.len() == 0 {
        assert(b.len() == 0);
        assert(a =~= b);
    } else {
        assert(b.len() > 0);
        if a[0] != b[0] {
            if (a[0] as u32) == (b[0] as u32) {
                lemma_char_code_inj(a[0], b[0]);
            }
            assert(false);
        }
        assert(lex_le(a.drop_first(), b.drop_first()));
        assert(lex_le(b.drop_first(), a.drop_first()));
        lemma_lex_le_antisym(a.drop_first(), b.drop_first());
        assert(a.drop_first() == b.drop_first());
        assert(a.drop_first().len() == b.drop_first().len());
        assert(a.len() == b.len());
        assert forall|i: int| 0 <= i < a.len() implies a[i] == b[i] by {
            if i > 0 {
                assert(a.drop_first()[i - 1] == b.drop_first()[i - 1]);
            }
        }
        assert(a =~= b);
    }
}

/// Entries that precede each other in the playlist order carry the same
/// key.
proof fn lemma_key_le_both(x: Entry, y: Entry)
    requires
        key_le(x, y),
        key_le(y, x),
    ensures
        same_key(x, y),
{
    if x.arg == y.arg {
        if lex_lt(x.song.album_info@, y.song.album_info@)
            && lex_lt(y.song.album_info@, x.song.album_info@) {
            lemma_lex_le_antisym(x.song.album_info@, y.song.album_info@);
        }
    }
}

/// When the first element of `s` satisfies `p`, it is also the first
/// element of the filtered sequence.
proof fn lemma_filter_first(s: Seq<Entry>, p: spec_fn(Entry) -> bool)
    requires
        s.len() > 0,
        p(s[0]),
    ensures
        s.filter(p).len() > 0,
        s.filter(p)[0] == s[0],
    decreases s.len(),
{
    reveal(Seq::filter);
    if s.len() == 1 {
        assert(s.drop_last() =~= Seq::<Entry>::empty());
        assert(s.last() == s[0]);
    } else {
        assert(s.drop_last()[0] == s[0]);
        lemma_filter_first(s.drop_last(), p);
    }
}

/// Filtering distributes over splitting off the first element.
proof fn lemma_filter_drop_first(s: Seq<Entry>, p: spec_fn(Entry) -> bool)
    requires
        s.len() > 0,
    ensures
        p(s[0]) ==> s.filter(p) == seq![s[0]] + s.drop_first().filter(p),
        !p(s[0]) ==> s.filter(p) == s.drop_first().filter(p),
{
    broadcast use vstd::seq_lib::group_filter_ensures;

    reveal_with_fuel(Seq::<_>::filter, 3);
    let head = seq![s[0]];
    assert(s =~= head + s.drop_first());
    assert(head.drop_last() =~= Seq::<Entry>::empty());
    if p(s[0]) {
        assert(head.filter(p) =~= head);
        assert(s.filter(p) == head + s.drop_first().filter(p));
    } else {
        assert(head.filter(p) =~= Seq::<Entry>::empty());
        assert(s.filter(p) =~= s.drop_first().filter(p));
    }
}

/// LAW: the playlist order is a pure function of the surviving entries
/// and their keys, independent of the order in which the extraction
/// workers delivered them: any two entry sequences that are both sorted
/// by the playlist order and preserve, key for key, the same arrival
/// subsequences are one and the same sequence.
pub proof fn lemma_order_deterministic(r1: Seq<Entry>, r2: Seq<Entry>)
    requires
        sorted_entries(r1),
        sorted_entries(r2),
        forall|a: int, t: Seq<char>, n: int|
            #[trigger] filter_key(r1, a, t, n) == filter_key(r2, a, t, n),
    ensures
        r1 == r2,
    decreases r1.len() + r2.len(),
{
    reveal(Seq::filter);
    if r1.len() == 0 && r2.len() == 0 {
        assert(r1 =~= r2);
    } else if r1.len() == 0 {
        let y = r2[0];
        let ya = y.arg as int;
        let yt = y.song.album_info@;
        let yn = y.song.track_number as int;
        let p = key_pred(ya, yt, yn);
        lemma_filter_first(r2, p);
        assert(filter_key(r1, ya, yt, yn) == filter_key(r2, ya, yt, yn));
        assert(filter_key(r1, ya, yt, yn).len() == 0);
        assert(false);
    } else if r2.len() == 0 {
        let x = r1[0];
        let xa = x.arg as int;
        let xt = x.song.album_info@;
        let xn = x.song.track_number as int;
        let p = key_pred(xa, xt, xn);
        lemma_filter_first(r1, p);
        assert(filter_key(r1, xa, xt, xn) == filter_key(r2, xa, xt, xn));
        assert(filter_key(r2, xa, xt, xn).len() == 0);
        assert(false);
    } else {
        let x = r1[0];
        let y = r2[0];
        let xa = x.arg as int;
        let xt = x.song.album_info@;
        let xn = x.song.track_number as int;
        let ya = y.arg as int;
        let yt = y.song.album_info@;
        let yn = y.song.track_number as int;
        let px = key_pred(xa, xt, xn);
        let py = key_pred(ya, yt, yn);
        assert(filter_key(r1, xa, xt, xn) == filter_key(r2, xa, xt, xn));
        assert(filter_key(r1, ya, yt, yn) == filter_key(r2, ya, yt, yn));
        // x is the first entry of its key class in r1, and that class is
        // the same in r2, so x occurs in r2; sortedness of r2 puts y at
        // or before it. Symmetrically for y in r1.
        lemma_filter_first(r1, px);
        assert(r2.filter(px).len() > 0);
        assert(r2.filter(px).contains(r2.filter(px)[0]));
        r2.lemma_filter_contains_rev(px, r2.filter(px)[0]);
        let ix = choose|i: int| 0 <= i < r2.len() && r2[i] == r2.filter(px)[0];
        assert(px(r2.filter(px)[0])) by {
            r2.lemma_filter_pred(px, 0);
        }
        assert(key_le(r2[0], r2[ix]));
        assert(same_key(r2[ix], x));
        assert(key_le(y, x));
        lemma_filter_first(r2, py);
        assert(r1.filter(py).len() > 0);
        assert(r1.filter(py).contains(r1.filter(py)[0]));
        r1.lemma_filter_contains_rev(py, r1.filter(py)[0]);
        let iy = choose|i: int| 0 <= i < r1.len() && r1[i] == r1.filter(py)[0];
        assert(py(r1.filter(py)[0])) by {
            r1.lemma_filter_pred(py, 0);
        }
        assert(key_le(r1[0], r1[iy]));
        assert(same_key(r1[iy], y));
        assert(key_le(x, y));
        lemma_key_le_both(x, y);
        // Same key: both heads are the first entry of that shared class,
        // and the classes are equal, so the heads are equal.
        assert(px(y));
        lemma_filter_first(r2, px);
        assert(r2.filter(px)[0] == y);
        assert(r1.filter(px)[0] == x);
        assert(x == y);
        // The tails then preserve the same key classes.
        assert forall|a: int, t: Seq<char>, n: int|
            #[trigger] filter_key(r1.drop_first(), a, t, n)
                == filter_key(r2.drop_first(), a, t, n) by {
            let p = key_pred(a, t, n);
            assert(filter_key(r1, a, t, n) == filter_key(r2, a, t, n));
            lemma_filter_drop_first(r1, p);
            lemma_filter_drop_first(r2, p);
            if p(x) {
                assert(seq![x] + r1.drop_first().filter(p) == seq![y] + r2.drop_first().filter(
                    p));
                assert(r1.drop_first().filter(p) =~= (seq![x] + r1.drop_first().filter(
                    p)).drop_first());
                assert(r2.drop_first().filter(p) =~= (seq![y] + r2.drop_first().filter(
                    p)).drop_first());
            }
        }
        assert(sorted_entries(r1.drop_first())) by {
            assert(forall|i: int, j: int| 0 <= i <= j < r1.drop_first().len()
                ==> key_le(r1[i + 1], r1[j + 1]) && #[trigger] key_le(
                r1.drop_first()[i], r1.drop_first()[j]));
        }
        assert(sorted_entries(r2.drop_first())) by {
            assert(forall|i: int, j: int| 0 <= i <= j < r2.drop_first().len()
                ==> key_le(r2[i + 1], r2[j + 1]) && #[trigger] key_le(
                r2.drop_first()[i], r2.drop_first()[j]));
        }
        lemma_order_deterministic(r1.drop_first(), r2.drop_first());
        assert(r1.len() == r2.len());
        assert forall|i: int| 0 <= i < r1.len() implies r1[i] == r2[i] by {
            if i > 0 {
                assert(r1.drop_first()[i - 1] == r2.drop_first()[i - 1]);
            }
        }
        assert(r1 =~= r2);
    }
}

/// LAW: running the builder on a shuffled copy of the same file set
/// yields the same playlist. Two playlists that `from` built out of
/// result batches with, key for key, the same surviving entries (as is
/// the case when only the workers' completion order differs and no two
/// files share a whole key) hold the same songs in the same order.
pub proof fn lemma_playlist_from_deterministic(
    p1: Playlist,
    p2: Playlist,
    r1: Seq<(usize, Option<Song>)>,
    r2: Seq<(usize, Option<Song>)>,
)
    requires
        p1.wf(),
        p2.wf(),
        forall|a: int, t: Seq<char>, n: int|
            #[trigger] filter_key(p1.entries@, a, t, n) == filter_key(spec_playable(r1), a, t, n),
        forall|a: int, t: Seq<char>, n: int|
            #[trigger] filter_key(p2.entries@, a, t, n) == filter_key(spec_playable(r2), a, t, n),
        forall|a: int, t: Seq<char>, n: int|
            #[trigger] filter_key(spec_playable(r1), a, t, n) == filter_key(
                spec_playable(r2), a, t, n),
    ensures
        p1.entries@ == p2.entries@,
        p1.store@ == p2.store@,
{
    assert forall|a: int, t: Seq<char>, n: int|
        #[trigger] filter_key(p1.entries@, a, t, n) == filter_key(p2.entries@, a, t, n) by {
        assert(filter_key(p1.entries@, a, t, n) == filter_key(spec_playable(r1), a, t, n));
        assert(filter_key(spec_playable(r1), a, t, n) == filter_key(spec_playable(r2), a, t, n));
        assert(filter_key(p2.entries@, a, t, n) == filter_key(spec_playable(r2), a, t, n));
    }
    lemma_order_deterministic(p1.entries@, p2.entries@);
    assert(p1.store@ =~= p2.store@);
}

/// LAW: the flattened playlist never interleaves tracks across top-level
/// arguments: in a sorted entry sequence every track of an earlier
/// argument comes before every track of a later one.
pub proof fn lemma_arguments_not_interleaved(s: Seq<Entry>, i: int, j: int)
    requires
        sorted_entries(s),
        0 <= i <= j < s.len(),
    ensures
        s[i].arg <= s[j].arg,
{
    assert(key_le(s[i], s[j]));
}

} // verus!
