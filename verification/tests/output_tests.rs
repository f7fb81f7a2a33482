use soi::backend::{Backend, BackendState};
use soi::input::{classify_arg, handle_user_input, ArgKind, Key, UserInput};
use soi::output::{
    format_playing_song, format_song, help_lines, layout, playing_icon, visible_range,
    DisplayLine, PlayingIcon,
};
use soi::playlist::Playlist;
use soi::song::{Song, TagSet};
use soi::traits::{ArgFiles, PathToURI, PrettyDuration};

fn track(album: &str, title: &str, number: u32, seconds: u64) -> Song {
    Song::from(
        format!("music/{}.mp3", title),
        seconds * 1_000_000_000,
        TagSet {
            album: Some(album.to_string()),
            artist: None,
            album_artist: Some("Band".to_string()),
            title: Some(title.to_string()),
            track_number: Some(number),
            year: None,
        },
    )
}

#[test]
fn pretty_duration_formats_minutes_and_seconds() {
    assert_eq!(0u64.pretty(), "0:00");
    assert_eq!((61 * 1_000_000_000u64).pretty(), "1:01");
    assert_eq!((60 * 1_000_000_000u64).pretty(), "1:00");
    assert_eq!((3599 * 1_000_000_000u64).pretty(), "59:59");
    assert_eq!((600 * 1_000_000_000u64).pretty(), "10:00");
}

#[test]
fn paths_become_file_uris() {
    let path = "/home/u/My Song.mp3".to_string();
    assert_eq!(path.to_uri(), "file:///home/u/My%20Song.mp3");
    let plain = "/a/b-c_d.~e".to_string();
    assert_eq!(plain.to_uri(), "file:///a/b-c_d.~e");
    let odd = "/a/100%?#".to_string();
    assert_eq!(odd.to_uri(), "file:///a/100%25%3F%23");
}

#[test]
fn arg_files_skips_the_program_name() {
    let args = vec!["soi".to_string(), "a.mp3".to_string(), "dir".to_string()];
    assert_eq!(args.files(), vec!["a.mp3".to_string(), "dir".to_string()]);
    let none: Vec<String> = Vec::new();
    assert!(none.files().is_empty());
}

#[test]
fn keys_map_to_the_documented_commands() {
    assert!(matches!(handle_user_input(Key::Char('m')), Some(UserInput::Mute)));
    assert!(matches!(handle_user_input(Key::Char(' ')), Some(UserInput::Pause)));
    assert!(matches!(handle_user_input(Key::Char('q')), Some(UserInput::Stop)));
    assert!(matches!(handle_user_input(Key::Char('h')), Some(UserInput::SeekBackward)));
    assert!(matches!(handle_user_input(Key::Left), Some(UserInput::SeekBackward)));
    assert!(matches!(handle_user_input(Key::Char('j')), Some(UserInput::Next)));
    assert!(matches!(handle_user_input(Key::Down), Some(UserInput::Next)));
    assert!(matches!(handle_user_input(Key::Char('k')), Some(UserInput::Prev)));
    assert!(matches!(handle_user_input(Key::Up), Some(UserInput::Prev)));
    assert!(matches!(handle_user_input(Key::Char('l')), Some(UserInput::SeekForward)));
    assert!(matches!(handle_user_input(Key::Right), Some(UserInput::SeekForward)));
    assert!(handle_user_input(Key::Char('x')).is_none());
    assert!(handle_user_input(Key::Other).is_none());
}

#[test]
fn flags_are_classified() {
    assert_eq!(classify_arg(&"--help".to_string()), ArgKind::Help);
    assert_eq!(classify_arg(&"--version".to_string()), ArgKind::Version);
    assert_eq!(classify_arg(&"--loud".to_string()), ArgKind::UnknownFlag);
    assert_eq!(classify_arg(&"-x".to_string()), ArgKind::UnknownFlag);
    assert_eq!(classify_arg(&"song.mp3".to_string()), ArgKind::Path);
}

#[test]
fn icon_reflects_playing_and_muted() {
    let snap = |playing, muted| BackendState { position: 0, playing, muted };
    assert_eq!(playing_icon(&snap(true, true)), PlayingIcon::Muted);
    assert_eq!(playing_icon(&snap(true, false)), PlayingIcon::Playing);
    assert_eq!(playing_icon(&snap(false, false)), PlayingIcon::Paused);
    assert_eq!(playing_icon(&snap(false, true)), PlayingIcon::Paused);
}

#[test]
// Two albums in one argument: a heading per album, songs under their
// own album, and the center pointing at the playing line.
fn layout_groups_by_album() {
    let playlist = Playlist::from(vec![
        (0, Some(track("Alpha", "a1", 1, 60))),
        (0, Some(track("Alpha", "a2", 2, 60))),
        (0, Some(track("Beta", "b1", 1, 60))),
    ])
    .unwrap();
    let (lines, center) = layout(&playlist);
    assert_eq!(lines.len(), 5);
    match &lines[0] {
        DisplayLine::Album(a) => assert_eq!(a, "Band: Alpha"),
        _ => panic!("expected an album heading first"),
    }
    assert!(matches!(lines[1], DisplayLine::Song(true, 0)));
    assert!(matches!(lines[2], DisplayLine::Song(false, 1)));
    match &lines[3] {
        DisplayLine::Album(a) => assert_eq!(a, "Band: Beta"),
        _ => panic!("expected the second album heading"),
    }
    assert!(matches!(lines[4], DisplayLine::Song(false, 2)));
    assert_eq!(center, 1);
}

#[test]
// The window over the lines keeps the playing line visible and fits
// the terminal.
fn visible_range_keeps_the_center_visible() {
    // Everything fits.
    assert_eq!(visible_range(5, 2, 10), (0, 5));
    // Centered in the middle of a long list.
    assert_eq!(visible_range(100, 50, 10), (45, 55));
    // Clamped at the top.
    assert_eq!(visible_range(100, 1, 10), (0, 10));
    // Clamped at the bottom.
    assert_eq!(visible_range(100, 99, 10), (90, 100));
    let (start, end) = visible_range(100, 97, 11);
    assert!(start <= 97 && 97 < end);
    assert!(end - start <= 11);
}

#[test]
fn song_line_is_laid_out_in_columns() {
    let song = track("Alpha", "Tea", 3, 61);
    let line = format_song(&song, 20);
    assert_eq!(line, "     3 Tea      1:01");
    assert_eq!(line.chars().count(), 20);
}

#[test]
fn playing_line_shows_position_and_duration() {
    let song = track("Alpha", "Tea", 3, 61);
    let state = BackendState { position: 2_000_000_000, playing: true, muted: false };
    let line = format_playing_song(&song, &state, 24);
    assert_eq!(line, "  3 Tea     0:02/1:01");
    assert_eq!(line.chars().count(), 21);
}

#[test]
fn help_fills_the_terminal() {
    let lines = help_lines(10);
    assert_eq!(lines.len(), 10);
    assert_eq!(lines[1], "Keyboard shortcuts");
    assert_eq!(lines[3], " k or up arrow     previous song");
    assert_eq!(lines[9], "");
    let short = help_lines(3);
    assert_eq!(short.len(), 7);
}

#[test]
fn backend_starts_stopped_and_silent() {
    let backend = Backend::new();
    let state = backend.state();
    assert_eq!(state.position, 0);
    assert!(!state.muted);
}
