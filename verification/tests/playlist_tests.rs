use soi::playlist::Playlist;
use soi::song::{Song, TagSet};

fn tagged(album: &str, title: &str, track: u32) -> Song {
    Song::from(
        format!("testcases/{}/{}.mp3", album, title),
        1_000_000_000,
        TagSet {
            album: Some(album.to_string()),
            artist: Some("Artist".to_string()),
            album_artist: Some("Artist".to_string()),
            title: Some(title.to_string()),
            track_number: Some(track),
            year: None,
        },
    )
}

fn titles(playlist: &Playlist) -> Vec<String> {
    playlist.iter().into_iter().map(|(_, s)| s.title).collect()
}

#[test]
// soi 1.mp3 2.mp3 3.mp3 etc. should be opened in that order: each file is
// its own argument, so the playlist follows the argument order even when
// the extraction workers finish in some other order.
fn command_line_arguments_handled_in_order() {
    let files = vec!["5", "3", "1", "6", "2", "4"];
    let mut results: Vec<(usize, Option<Song>)> = files
        .iter()
        .enumerate()
        .map(|(i, name)| (i, Some(tagged("singles", name, 1))))
        .collect();
    // Workers complete in reverse order.
    results.reverse();

    let playlist = Playlist::from(results).unwrap();
    let expect: Vec<String> = files.iter().map(|s| s.to_string()).collect();
    assert_eq!(expect, titles(&playlist));
}

// One directory argument of one album: every file carries the same album
// tag and its track number, delivered in the order the directory listing
// happened to produce.
fn album_results(order: &[u32]) -> Vec<(usize, Option<Song>)> {
    order
        .iter()
        .map(|&t| (0, Some(tagged("album", &format!("Song {}", t), t))))
        .collect()
}

#[test]
// When argument is a directory, the files within it should be
// ordered according to the track numbers in the album.
// In this test case, the files arrive already ordered.
fn album_with_ordered_filenames() {
    let playlist = Playlist::from(album_results(&[1, 2, 3])).unwrap();
    for (n, item) in playlist.iter().into_iter().enumerate() {
        let title = format!("Song {}", n + 1);
        assert_eq!(title, item.1.title);
    }
}

#[test]
// When argument is a directory, the files within it should be
// ordered according to the track numbers in the album.
// In this test case, the files arrive in an arbitrary order.
fn album_with_unordered_filenames() {
    let playlist = Playlist::from(album_results(&[2, 3, 1])).unwrap();
    for (n, item) in playlist.iter().into_iter().enumerate() {
        let title = format!("Song {}", n + 1);
        assert_eq!(title, item.1.title);
    }
}

fn random_ctime_order() -> Vec<u32> {
    vec![3, 1, 4, 2, 5]
}

#[test]
// When argument is a directory, the files within it should be
// ordered according to the track numbers in the album.
// In this test case, the arrival order is as scrambled as random
// creation times would make it.
fn album_with_random_ctime() {
    let playlist = Playlist::from(album_results(&random_ctime_order())).unwrap();
    for (n, item) in playlist.iter().into_iter().enumerate() {
        let title = format!("Song {}", n + 1);
        assert_eq!(title, item.1.title);
    }
}

#[test]
// Ensures the arrival order used by album_with_random_ctime is really
// out of order, so that the test above exercises the sort at all.
fn album_with_random_ctime_not_alphabetical() {
    for (i, t) in random_ctime_order().into_iter().enumerate() {
        if t as usize != i + 1 {
            return;
        }
    }
    panic!("the fixture is already sorted; pick another order");
}

#[test]
// When a directory is passed as an argument and the directory
// contains more than one subdirectory, the subdirs should be
// played in order (i.e. not start with track 1 from every album,
// go on to the track 2s etc.).
fn two_album_with_ordered_filenames() {
    let results = vec![
        (0, Some(tagged("Album B", "b2", 4))),
        (0, Some(tagged("Album A", "a2", 2))),
        (0, Some(tagged("Album B", "b1", 3))),
        (0, Some(tagged("Album A", "a1", 1))),
    ];
    let playlist = Playlist::from(results).unwrap();
    let mut song = playlist.iter().into_iter();
    assert_eq!(1, song.next().unwrap().1.track_number);
    assert_eq!(2, song.next().unwrap().1.track_number);
    assert_eq!(3, song.next().unwrap().1.track_number);
    assert_eq!(4, song.next().unwrap().1.track_number);
}

#[test]
// The playlist [A1, A2, B1] built from the arguments [Album X dir,
// Album Y dir] in that order comes out exactly A1, A2, B1 whatever
// order the directory entries (and workers) produced.
fn two_arguments_keep_argument_order() {
    let a1 = tagged("Album X", "A1", 1);
    let a2 = tagged("Album X", "A2", 2);
    let b1 = tagged("Album Y", "B1", 1);
    let results = vec![(1, Some(b1)), (0, Some(a2)), (0, Some(a1))];
    let playlist = Playlist::from(results).unwrap();
    assert_eq!(vec!["A1", "A2", "B1"], titles(&playlist));
}

#[test]
// An unplayable file mixed with two playable files in one argument:
// the playlist holds exactly the two playable tracks, in order, and no
// error surfaces.
fn unplayable_file_is_skipped() {
    let results = vec![
        (0, Some(tagged("album", "Song 2", 2))),
        (0, None),
        (0, Some(tagged("album", "Song 1", 1))),
    ];
    let playlist = Playlist::from(results).unwrap();
    assert_eq!(vec!["Song 1", "Song 2"], titles(&playlist));
}

#[test]
// A batch where nothing was playable does not make a playlist.
fn all_unplayable_is_no_playlist() {
    assert!(Playlist::from(vec![(0, None), (1, None)]).is_none());
    assert!(Playlist::from(Vec::new()).is_none());
}

#[test]
// next() never moves the cursor outside the playlist: walking forward
// returns each following song once, and at the last track it returns
// None and stays put.
fn next_stops_at_the_last_track() {
    let mut playlist = Playlist::from(album_results(&[1, 2])).unwrap();
    assert_eq!(0, playlist.currently_playing);
    assert_eq!("Song 2", playlist.next().unwrap().title);
    assert_eq!(1, playlist.currently_playing);
    assert!(playlist.next().is_none());
    assert_eq!(1, playlist.currently_playing);
}

#[test]
// prev() never moves the cursor outside the playlist: at the first
// track it returns None and stays put.
fn prev_stops_at_the_first_track() {
    let mut playlist = Playlist::from(album_results(&[1, 2])).unwrap();
    playlist.next().unwrap();
    assert_eq!("Song 1", playlist.prev().unwrap().title);
    assert_eq!(0, playlist.currently_playing);
    assert!(playlist.prev().is_none());
    assert_eq!(0, playlist.currently_playing);
}

#[test]
// peek() looks one track ahead without moving the cursor.
fn peek_does_not_move_the_cursor() {
    let playlist = Playlist::from(album_results(&[1, 2])).unwrap();
    assert_eq!("Song 2", playlist.peek().unwrap().title);
    assert_eq!(0, playlist.currently_playing);
    assert_eq!("Song 2", playlist.peek().unwrap().title);
    let current = playlist.current().unwrap();
    assert_eq!("Song 1", current.title);
}

#[test]
// The current song is flagged in iter()'s output.
fn iter_flags_the_playing_song() {
    let mut playlist = Playlist::from(album_results(&[1, 2, 3])).unwrap();
    playlist.next().unwrap();
    let flags: Vec<bool> = playlist.iter().into_iter().map(|(p, _)| p).collect();
    assert_eq!(vec![false, true, false], flags);
}
