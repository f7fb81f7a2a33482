//! The event dispatch of the main loop: every message from the input
//! thread, the audio engine and the periodic timer is applied here, one
//! at a time, to the playlist cursor and the playback session. Nothing
//! else ever mutates them, so a `Next` key press and a track ending can
//! never race.

use vstd::prelude::*;

use crate::backend::{
    enqueue_post, Backend, BackendMessage, BackendState, CommandEffect, EngineAction,
    SEEK_STEP_NANOS,
};
use crate::input::UserInput;
use crate::playlist::Playlist;
use crate::traits::spec_uri_of;

verus! {

/// What the main loop does after one backend message: carry on, redraw
/// the display with a fresh snapshot, or tear down and quit.
pub enum LoopControl {
    Continue,
    Redraw(BackendState),
    Quit,
}

/// Applies one user input to the session, using the playlist's
/// cursor-mutating `next()`/`prev()` as the track argument of `play`,
/// and returns what the engine should do. The playlist's contents never
/// change here; only the cursor may move, and it stays inside the
/// playlist.
pub fn dispatch_input(input: UserInput, playlist: &mut Playlist, backend: &mut Backend) -> (e:
    CommandEffect)
    requires
        old(playlist).wf(),
    ensures
        final(playlist).wf(),
        final(playlist).store@ == old(playlist).store@,
        final(playlist).entries@ == old(playlist).entries@,
        !(input is Next || input is Prev) ==> final(playlist).currently_playing == old(
            playlist).currently_playing,
        input is Mute ==> (final(backend).muted == !old(backend).muted && final(
            backend).transport == old(backend).transport && e.actions@ =~= seq![
            EngineAction::SetMuted(!old(backend).muted),
        ] && e.messages@.len() == 0),
        input is Pause ==> (final(backend).muted == old(backend).muted && e.messages@.len() == 0
            && (old(backend).transport is Playing ==> (final(backend).transport is Paused
                && e.actions@ =~= seq![EngineAction::Pause]))
            && (!(old(backend).transport is Playing) ==> (final(backend).transport is Playing
                && e.actions@ =~= seq![EngineAction::Play]))),
        input is Stop ==> (final(backend).transport is Stopped && e.actions@ =~= seq![
            EngineAction::Null,
        ] && e.messages@ =~= seq![BackendMessage::ReachedEndOfPlaylist]),
        input is Next ==> spec_track_change(
            *old(playlist),
            *final(playlist),
            *old(backend),
            *final(backend),
            e,
            old(playlist).currently_playing + 1 < old(playlist).store@.len(),
            old(playlist).currently_playing + 1,
        ),
        input is Prev ==> spec_track_change(
            *old(playlist),
            *final(playlist),
            *old(backend),
            *final(backend),
            e,
            old(playlist).currently_playing > 0,
            old(playlist).currently_playing - 1,
        ),
        input is SeekForward ==> (*final(backend) == *old(backend) && e.messages@.len() == 0
            && e.actions@ =~= seq![
            EngineAction::Seek(
                if old(backend).position + SEEK_STEP_NANOS <= u64::MAX {
                    (old(backend).position + SEEK_STEP_NANOS) as u64
                } else {
                    u64::MAX
                },
            ),
        ]),
        input is SeekBackward ==> (*final(backend) == *old(backend) && e.messages@.len() == 0
            && e.actions@ =~= seq![
            EngineAction::Seek(
                if old(backend).position >= SEEK_STEP_NANOS {
                    (old(backend).position - SEEK_STEP_NANOS) as u64
                } else {
                    0
                },
            ),
        ]),
{
    match input {
        UserInput::Mute => backend.toggle_mute(),
        UserInput::Pause => backend.toggle_pause(),
        UserInput::Stop => backend.stop(),
        UserInput::Next => {
            let song = playlist.next();
            backend.play(song)
        },
        UserInput::Prev => {
            let song = playlist.prev();
            backend.play(song)
        },
        UserInput::SeekBackward => backend.seek_backward(),
        UserInput::SeekForward => backend.seek_forward(),
    }
}

/// What a `Next` or `Prev` key does: when a track exists in that
/// direction the cursor moves to `target` and the engine is pointed at
/// that track and started; at the boundary the cursor and the session
/// stay put and nothing is asked of the engine.
pub open spec fn spec_track_change(
    pl_pre: Playlist,
    pl_post: Playlist,
    b_pre: Backend,
    b_post: Backend,
    e: CommandEffect,
    moved: bool,
    target: int,
) -> bool {
    if moved {
        &&& pl_post.currently_playing == target
        &&& b_post.transport is Playing
        &&& b_post.muted == b_pre.muted
        &&& b_post.next_uri == b_pre.next_uri
        &&& e.actions@.len() == 3
        &&& e.actions@[0] is Ready
        &&& (e.actions@[1] matches EngineAction::SetUri(u) && u@ == spec_uri_of(
            pl_pre.store@[target].path@,
        ))
        &&& e.actions@[2] is Play
        &&& e.messages@ =~= seq![BackendMessage::RequestNextSong]
    } else {
        &&& pl_post.currently_playing == pl_pre.currently_playing
        &&& b_post == b_pre
        &&& e.actions@.len() == 0
        &&& e.messages@.len() == 0
    }
}

/// Applies one message from the backend to the playlist and session.
/// `ReachedEndOfSong` only advances the cursor: the engine has already
/// switched tracks on its own through the gapless queue, so no new
/// `play` is issued. `ReachedEndOfPlaylist` ends the loop.
/// `RequestNextSong` queues the track after the cursor (or clears the
/// queue at the end of the playlist). A `State` snapshot goes to the
/// display.
pub fn dispatch_backend_message(
    msg: BackendMessage,
    playlist: &mut Playlist,
    backend: &mut Backend,
) -> (r: LoopControl)
    requires
        old(playlist).wf(),
    ensures
        final(playlist).wf(),
        final(playlist).store@ == old(playlist).store@,
        final(playlist).entries@ == old(playlist).entries@,
        msg is ReachedEndOfSong ==> (*final(backend) == *old(backend) && r is Continue
            && final(playlist).currently_playing == (
            if old(playlist).currently_playing + 1 < old(playlist).store@.len() {
                old(playlist).currently_playing + 1
            } else {
                old(playlist).currently_playing as int
            })),
        msg is ReachedEndOfPlaylist ==> (*final(backend) == *old(backend) && final(
            playlist).currently_playing == old(playlist).currently_playing && r is Quit),
        msg is RequestNextSong ==> (final(playlist).currently_playing == old(
            playlist).currently_playing && r is Continue && enqueue_post(
            *old(backend),
            if old(playlist).currently_playing + 1 < old(playlist).store@.len() {
                Some(old(playlist).store@[old(playlist).currently_playing + 1])
            } else {
                None
            },
            *final(backend),
        )),
        msg matches BackendMessage::State(s) ==> (*final(backend) == *old(backend) && final(
            playlist).currently_playing == old(playlist).currently_playing && (r matches
            LoopControl::Redraw(t) && t == s)),
{
    match msg {
        BackendMessage::ReachedEndOfSong => {
            // The backend switches to the next track itself; only the
            // playlist needs to hear about the change.
            let _ = playlist.next();
            LoopControl::Continue
        },
        BackendMessage::ReachedEndOfPlaylist => LoopControl::Quit,
        BackendMessage::RequestNextSong => {
            let song = playlist.peek();
            backend.enqueue(song);
            LoopControl::Continue
        },
        BackendMessage::State(s) => LoopControl::Redraw(s),
    }
}

} // verus!
