use soi::backend::{Backend, BackendMessage, EngineAction, SEEK_STEP_NANOS};
use soi::coordinator::{dispatch_backend_message, dispatch_input, LoopControl};
use soi::input::UserInput;
use soi::playlist::Playlist;
use soi::song::{Song, TagSet};

fn track(title: &str, number: u32) -> Song {
    Song::from(
        format!("/music/{}.mp3", title),
        1_000_000_000,
        TagSet {
            album: Some("Album".to_string()),
            artist: None,
            album_artist: None,
            title: Some(title.to_string()),
            track_number: Some(number),
            year: None,
        },
    )
}

fn two_song_playlist() -> Playlist {
    Playlist::from(vec![
        (0, Some(track("one", 1))),
        (0, Some(track("two", 2))),
    ])
    .unwrap()
}

#[test]
// Enqueue then dequeue: the engine is pointed at the enqueued track's
// URI and exactly one ReachedEndOfSong and one RequestNextSong come out.
fn enqueue_dequeue_round_trip() {
    let mut backend = Backend::new();
    let song = track("one", 1);
    backend.enqueue(Some(&song));
    let effect = backend.dequeue();

    assert_eq!(effect.actions.len(), 1);
    match &effect.actions[0] {
        EngineAction::SetUri(uri) => assert_eq!(uri, "file:///music/one.mp3"),
        _ => panic!("expected a SetUri request"),
    }
    assert_eq!(effect.messages.len(), 2);
    assert!(matches!(effect.messages[0], BackendMessage::ReachedEndOfSong));
    assert!(matches!(effect.messages[1], BackendMessage::RequestNextSong));
}

#[test]
// Dequeue with nothing enqueued emits neither a request nor a message.
fn dequeue_with_nothing_enqueued_does_nothing() {
    let mut backend = Backend::new();
    backend.enqueue(None);
    let effect = backend.dequeue();
    assert!(effect.actions.is_empty());
    assert!(effect.messages.is_empty());
}

#[test]
// On the last track, with no pending next-URI, the end of the playlist
// is reported by the engine's own end-of-stream signal alone: dequeue
// stays silent, and the coordinator quits only on the engine's message.
fn end_of_playlist_comes_from_the_engine() {
    let mut playlist = two_song_playlist();
    let mut backend = Backend::new();
    playlist.next().unwrap(); // now on the last track

    // The session asks what to queue next; past the end there is nothing.
    let control = dispatch_backend_message(
        BackendMessage::RequestNextSong,
        &mut playlist,
        &mut backend,
    );
    assert!(matches!(control, LoopControl::Continue));

    // Near the end of the last track the gapless callback finds nothing
    // queued and must not synthesize any message.
    let effect = backend.dequeue();
    assert!(effect.actions.is_empty());
    assert!(effect.messages.is_empty());

    // The engine's own end-of-stream message ends the loop.
    let control = dispatch_backend_message(
        BackendMessage::ReachedEndOfPlaylist,
        &mut playlist,
        &mut backend,
    );
    assert!(matches!(control, LoopControl::Quit));
}

#[test]
// Seek backward near position zero clamps to zero, never a negative
// offset; further in it goes back exactly five seconds.
fn seek_backward_clamps_to_zero() {
    let mut backend = Backend::new();
    backend.observe_position(3_000_000_000);
    let effect = backend.seek_backward();
    assert!(matches!(effect.actions[0], EngineAction::Seek(0)));

    backend.observe_position(7_000_000_000);
    let effect = backend.seek_backward();
    assert!(matches!(effect.actions[0], EngineAction::Seek(2_000_000_000)));
}

#[test]
fn seek_forward_jumps_five_seconds() {
    let mut backend = Backend::new();
    backend.observe_position(1_000_000_000);
    let effect = backend.seek_forward();
    assert!(matches!(
        effect.actions[0],
        EngineAction::Seek(6_000_000_000)
    ));
    assert_eq!(SEEK_STEP_NANOS, 5_000_000_000);
}

#[test]
fn toggle_pause_alternates() {
    let mut backend = Backend::new();
    let effect = backend.toggle_pause();
    assert!(matches!(effect.actions[0], EngineAction::Play));
    assert!(backend.playing());
    let effect = backend.toggle_pause();
    assert!(matches!(effect.actions[0], EngineAction::Pause));
    assert!(!backend.playing());
}

#[test]
fn toggle_mute_flips_only_the_flag() {
    let mut backend = Backend::new();
    assert!(!backend.muted());
    let effect = backend.toggle_mute();
    assert!(matches!(effect.actions[0], EngineAction::SetMuted(true)));
    assert!(backend.muted());
    assert!(backend.playing());
    backend.toggle_mute();
    assert!(!backend.muted());
}

#[test]
fn state_reports_the_snapshot() {
    let mut backend = Backend::new();
    backend.observe_position(1_500_000_000);
    backend.toggle_mute();
    let state = backend.state();
    assert_eq!(state.position, 1_500_000_000);
    assert!(state.playing);
    assert!(state.muted);
    assert_eq!(backend.position(), 1_500_000_000);
}

#[test]
// Playing a song resets the pipeline, points it at the song and starts
// it, and asks the main loop for the next song to queue.
fn play_points_the_engine_at_the_song() {
    let mut backend = Backend::new();
    let song = track("two", 2);
    let effect = backend.play(Some(&song));
    assert_eq!(effect.actions.len(), 3);
    assert!(matches!(effect.actions[0], EngineAction::Ready));
    match &effect.actions[1] {
        EngineAction::SetUri(uri) => assert_eq!(uri, "file:///music/two.mp3"),
        _ => panic!("expected a SetUri request"),
    }
    assert!(matches!(effect.actions[2], EngineAction::Play));
    assert_eq!(effect.messages.len(), 1);
    assert!(matches!(effect.messages[0], BackendMessage::RequestNextSong));

    let effect = backend.play(None);
    assert!(effect.actions.is_empty());
    assert!(effect.messages.is_empty());
}

#[test]
fn stop_tears_down_and_reports() {
    let mut backend = Backend::new();
    let effect = backend.stop();
    assert!(matches!(effect.actions[0], EngineAction::Null));
    assert!(matches!(
        effect.messages[0],
        BackendMessage::ReachedEndOfPlaylist
    ));
    assert_eq!(effect.actions.len(), 1);
}

#[test]
// A Next key press at the last track does nothing; before that it moves
// the cursor and starts the next song.
fn next_key_at_the_boundary_is_a_no_op() {
    let mut playlist = two_song_playlist();
    let mut backend = Backend::new();

    let effect = dispatch_input(UserInput::Next, &mut playlist, &mut backend);
    assert_eq!(playlist.currently_playing, 1);
    assert_eq!(effect.actions.len(), 3);

    let effect = dispatch_input(UserInput::Next, &mut playlist, &mut backend);
    assert_eq!(playlist.currently_playing, 1);
    assert!(effect.actions.is_empty());
    assert!(effect.messages.is_empty());
}

#[test]
// ReachedEndOfSong advances the cursor without a new play command; the
// engine already switched tracks through the gapless queue.
fn end_of_song_advances_the_cursor() {
    let mut playlist = two_song_playlist();
    let mut backend = Backend::new();
    let control = dispatch_backend_message(
        BackendMessage::ReachedEndOfSong,
        &mut playlist,
        &mut backend,
    );
    assert!(matches!(control, LoopControl::Continue));
    assert_eq!(playlist.currently_playing, 1);
}

#[test]
// RequestNextSong queues the track after the cursor.
fn request_next_song_queues_the_peeked_track() {
    let mut playlist = two_song_playlist();
    let mut backend = Backend::new();
    let control = dispatch_backend_message(
        BackendMessage::RequestNextSong,
        &mut playlist,
        &mut backend,
    );
    assert!(matches!(control, LoopControl::Continue));
    assert_eq!(playlist.currently_playing, 0);
    let effect = backend.dequeue();
    match &effect.actions[0] {
        EngineAction::SetUri(uri) => assert_eq!(uri, "file:///music/two.mp3"),
        _ => panic!("expected a SetUri request"),
    }
}

#[test]
// A State message hands the snapshot on for a redraw.
fn state_message_redraws() {
    let mut playlist = two_song_playlist();
    let mut backend = Backend::new();
    backend.observe_position(250_000_000);
    let state = backend.state();
    let control = dispatch_backend_message(
        BackendMessage::State(state),
        &mut playlist,
        &mut backend,
    );
    match control {
        LoopControl::Redraw(s) => assert_eq!(s.position, 250_000_000),
        _ => panic!("expected a redraw"),
    }
}
