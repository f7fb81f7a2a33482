//! The playback session state machine.
//!
//! The session owns the transport state (stopped/playing/paused), the
//! muted flag, the last reported position, and the pending next-URI slot
//! used for gapless transitions. Every command returns the requests it
//! wants the audio engine to perform and the messages it sends to the
//! main application; carrying the engine's work out (and reporting
//! failures back) is the caller's business, so the decisions here hold
//! whatever the engine then does.

use vstd::prelude::*;

use crate::song::Song;
use crate::traits::{spec_uri_of, PathToURI};

verus! {

/// How far a single seek command jumps, in nanoseconds (5 seconds).
pub const SEEK_STEP_NANOS: u64 = 5_000_000_000;

/// State of playback.
pub struct BackendState {
    /// Position in the current track, in nanoseconds
    pub position: u64,
    pub playing: bool,
    pub muted: bool,
}

/// Message from `Backend` to the main application.
pub enum BackendMessage {
    ReachedEndOfSong,
    ReachedEndOfPlaylist,
    RequestNextSong,
    State(BackendState),
}

/// The transport state of the one active playback session.
pub enum Transport {
    Stopped,
    Playing,
    Paused,
}

/// One request to the audio engine. The engine itself lives outside the
/// library; the session only decides which requests to make.
pub enum EngineAction {
    /// Reset the pipeline before a new track starts.
    Ready,
    /// Point the engine at this URI.
    SetUri(String),
    /// Start or resume playback.
    Play,
    /// Pause playback.
    Pause,
    /// Tear the pipeline down.
    Null,
    /// Set the engine's mute flag.
    SetMuted(bool),
    /// Jump to this position, in nanoseconds.
    Seek(u64),
}

/// What one session command decided: the engine requests to perform, in
/// order, and the messages for the main application, in order.
pub struct CommandEffect {
    pub actions: Vec<EngineAction>,
    pub messages: Vec<BackendMessage>,
}

impl CommandEffect {
    fn none() -> (r: CommandEffect)
        ensures
            r.actions@.len() == 0,
            r.messages@.len() == 0,
    {
        CommandEffect { actions: Vec::new(), messages: Vec::new() }
    }
}

/// The song argument of a command, as a value.
pub open spec fn song_of(song: Option<&Song>) -> Option<Song> {
    match song {
        Some(s) => Some(*s),
        None => None,
    }
}

/// What `enqueue` promises: only the pending next-URI slot changes, and
/// it now holds the URI of the given song, or nothing.
pub open spec fn enqueue_post(pre: Backend, song: Option<Song>, post: Backend) -> bool {
    &&& post.transport == pre.transport
    &&& post.muted == pre.muted
    &&& post.position == pre.position
    &&& (match song {
        Some(s) => post.next_uri matches Some(u) && u@ == spec_uri_of(s.path@),
        None => post.next_uri is None,
    })
}

/// What `dequeue` promises: the session state is untouched (the pending
/// slot stays armed until the next `enqueue` overwrites it), and with a
/// pending URI the engine is pointed at it and exactly one
/// `ReachedEndOfSong` and one `RequestNextSong` are emitted; with none,
/// nothing happens at all.
pub open spec fn dequeue_post(
    pre: Backend,
    post: Backend,
    actions: Seq<EngineAction>,
    messages: Seq<BackendMessage>,
) -> bool {
    &&& post == pre
    &&& (match pre.next_uri {
        Some(u) => actions =~= seq![EngineAction::SetUri(u)] && messages =~= seq![
            BackendMessage::ReachedEndOfSong,
            BackendMessage::RequestNextSong,
        ],
        None => actions.len() == 0 && messages.len() == 0,
    })
}

/// The internal state of the playback backend.
pub struct Backend {
    pub transport: Transport,
    pub muted: bool,
    /// The last position the engine reported, in nanoseconds.
    pub position: u64,
    /// The URI to hand the engine when the current track nears its end,
    /// for gapless playback.
    pub next_uri: Option<String>,
}

impl Backend {
    /// A fresh session: stopped, unmuted, at position zero, with
    /// nothing queued.
    pub fn new() -> (b: Backend)
        ensures
            b.transport is Stopped,
            !b.muted,
            b.position == 0,
            b.next_uri is None,
    {
        Backend { transport: Transport::Stopped, muted: false, position: 0, next_uri: None }
    }

    /// Returns true if the stream is not currently paused.
    pub fn playing(&self) -> (r: bool)
        ensures
            r == !(self.transport is Paused),
    {
        !matches!(self.transport, Transport::Paused)
    }

    /// Returns true if the application is currently muted.
    pub fn muted(&self) -> (r: bool)
        ensures
            r == self.muted,
    {
        self.muted
    }

    /// Returns the last position the engine reported for the played
    /// track, in nanoseconds.
    pub fn position(&self) -> (r: u64)
        ensures
            r == self.position,
    {
        self.position
    }

    /// Ingests the engine's periodic position report.
    pub fn observe_position(&mut self, position: u64)
        ensures
            final(self).position == position,
            final(self).transport == old(self).transport,
            final(self).muted == old(self).muted,
            final(self).next_uri == old(self).next_uri,
    {
        self.position = position;
    }

    /// Returns the state of the backend as a `BackendState` struct.
    pub fn state(&self) -> (r: BackendState)
        ensures
            r.position == self.position,
            r.playing == !(self.transport is Paused),
            r.muted == self.muted,
    {
        BackendState { position: self.position(), playing: self.playing(), muted: self.muted() }
    }

    /// Starts playback of `song`: the engine is reset, pointed at the
    /// song's URI and started, and a `RequestNextSong` message asks the
    /// main application to queue the track after it. If `song` is None
    /// (end of playlist), nothing happens.
    pub fn play(&mut self, song: Option<&Song>) -> (e: CommandEffect)
        ensures
            song is None ==> (*final(self) == *old(self) && e.actions@.len() == 0
                && e.messages@.len() == 0),
            song is Some ==> (final(self).transport is Playing
                && final(self).muted == old(self).muted
                && final(self).position == old(self).position
                && final(self).next_uri == old(self).next_uri
                && e.actions@.len() == 3
                && e.actions@[0] is Ready
                && (e.actions@[1] matches EngineAction::SetUri(u)
                    && u@ == spec_uri_of(song->0.path@))
                && e.actions@[2] is Play
                && e.messages@ =~= seq![BackendMessage::RequestNextSong]),
    {
        match song {
            None => CommandEffect::none(),
            Some(s) => {
                self.transport = Transport::Playing;
                let mut actions: Vec<EngineAction> = Vec::new();
                actions.push(EngineAction::Ready);
                actions.push(EngineAction::SetUri(s.path.to_uri()));
                actions.push(EngineAction::Play);
                let mut messages: Vec<BackendMessage> = Vec::new();
                messages.push(BackendMessage::RequestNextSong);
                proof {
                    assert(messages@ =~= seq![BackendMessage::RequestNextSong]);
                }
                CommandEffect { actions, messages }
            },
        }
    }

    /// Stops playback to quit the program: the pipeline is torn down and
    /// `ReachedEndOfPlaylist` tells the main loop to terminate.
    pub fn stop(&mut self) -> (e: CommandEffect)
        ensures
            final(self).transport is Stopped,
            final(self).muted == old(self).muted,
            final(self).position == old(self).position,
            final(self).next_uri == old(self).next_uri,
            e.actions@ =~= seq![EngineAction::Null],
            e.messages@ =~= seq![BackendMessage::ReachedEndOfPlaylist],
    {
        self.transport = Transport::Stopped;
        let mut actions: Vec<EngineAction> = Vec::new();
        actions.push(EngineAction::Null);
        let mut messages: Vec<BackendMessage> = Vec::new();
        messages.push(BackendMessage::ReachedEndOfPlaylist);
        proof {
            assert(actions@ =~= seq![EngineAction::Null]);
            assert(messages@ =~= seq![BackendMessage::ReachedEndOfPlaylist]);
        }
        CommandEffect { actions, messages }
    }

    /// Mutes or unmutes playback without touching the transport state.
    pub fn toggle_mute(&mut self) -> (e: CommandEffect)
        ensures
            final(self).muted == !old(self).muted,
            final(self).transport == old(self).transport,
            final(self).position == old(self).position,
            final(self).next_uri == old(self).next_uri,
            e.actions@ =~= seq![EngineAction::SetMuted(!old(self).muted)],
            e.messages@.len() == 0,
    {
        self.muted = !self.muted;
        let mut actions: Vec<EngineAction> = Vec::new();
        actions.push(EngineAction::SetMuted(self.muted));
        proof {
            assert(actions@ =~= seq![EngineAction::SetMuted(!old(self).muted)]);
        }
        CommandEffect { actions, messages: Vec::new() }
    }

    /// Pauses a playing session; any other apparent state resumes
    /// playback (the idempotent fallback).
    pub fn toggle_pause(&mut self) -> (e: CommandEffect)
        ensures
            final(self).muted == old(self).muted,
            final(self).position == old(self).position,
            final(self).next_uri == old(self).next_uri,
            old(self).transport is Playing ==> (final(self).transport is Paused && e.actions@
                =~= seq![EngineAction::Pause]),
            !(old(self).transport is Playing) ==> (final(self).transport is Playing
                && e.actions@ =~= seq![EngineAction::Play]),
            e.messages@.len() == 0,
    {
        let mut actions: Vec<EngineAction> = Vec::new();
        match self.transport {
            Transport::Playing => {
                self.transport = Transport::Paused;
                actions.push(EngineAction::Pause);
                proof {
                    assert(actions@ =~= seq![EngineAction::Pause]);
                }
            },
            _ => {
                self.transport = Transport::Playing;
                actions.push(EngineAction::Play);
                proof {
                    assert(actions@ =~= seq![EngineAction::Play]);
                }
            },
        }
        CommandEffect { actions, messages: Vec::new() }
    }

    /// Sets the song to be played after the end of the current one is
    /// reached, or clears the slot. This is necessary for gapless
    /// playback.
    pub fn enqueue(&mut self, song: Option<&Song>)
        ensures
            enqueue_post(*old(self), song_of(song), *final(self)),
    {
        self.next_uri = match song {
            Some(s) => Some(s.path.to_uri()),
            None => None,
        };
    }

    /// Hands the pending next-URI to the engine when the current track
    /// nears its end: with one set, the engine switches to it without a
    /// gap, `ReachedEndOfSong` advances the playlist cursor, and
    /// `RequestNextSong` asks for a new pending URI. With none set,
    /// nothing is emitted — the playlist has ended, and the engine's own
    /// end-of-stream signal (not this function) will tell the main loop.
    pub fn dequeue(&mut self) -> (e: CommandEffect)
        ensures
            dequeue_post(*old(self), *final(self), e.actions@, e.messages@),
    {
        match &self.next_uri {
            Some(uri) => {
                let mut actions: Vec<EngineAction> = Vec::new();
                actions.push(EngineAction::SetUri(uri.clone()));
                let mut messages: Vec<BackendMessage> = Vec::new();
                messages.push(BackendMessage::ReachedEndOfSong);
                messages.push(BackendMessage::RequestNextSong);
                proof {
                    assert(actions@ =~= seq![EngineAction::SetUri(old(self).next_uri->0)]);
                    assert(messages@ =~= seq![
                        BackendMessage::ReachedEndOfSong,
                        BackendMessage::RequestNextSong,
                    ]);
                }
                CommandEffect { actions, messages }
            },
            None => CommandEffect::none(),
        }
    }

    /// Skips forward five seconds from the last reported position,
    /// saturating at the largest representable position.
    pub fn seek_forward(&mut self) -> (e: CommandEffect)
        ensures
            *final(self) == *old(self),
            e.actions@ =~= seq![
                EngineAction::Seek(
                    if old(self).position + SEEK_STEP_NANOS <= u64::MAX {
                        (old(self).position + SEEK_STEP_NANOS) as u64
                    } else {
                        u64::MAX
                    },
                ),
            ],
            e.messages@.len() == 0,
    {
        let target = if self.position <= u64::MAX - SEEK_STEP_NANOS {
            self.position + SEEK_STEP_NANOS
        } else {
            u64::MAX
        };
        let mut actions: Vec<EngineAction> = Vec::new();
        actions.push(EngineAction::Seek(target));
        proof {
            assert(actions@ =~= seq![EngineAction::Seek(target)]);
        }
        CommandEffect { actions, messages: Vec::new() }
    }

    /// Skips backward five seconds from the last reported position.
    /// Near the start of a track this clamps to zero: the requested
    /// offset is never negative.
    pub fn seek_backward(&mut self) -> (e: CommandEffect)
        ensures
            *final(self) == *old(self),
            e.actions@ =~= seq![
                EngineAction::Seek(
                    if old(self).position >= SEEK_STEP_NANOS {
                        (old(self).position - SEEK_STEP_NANOS) as u64
                    } else {
                        0
                    },
                ),
            ],
            e.messages@.len() == 0,
    {
        let target = if self.position >= SEEK_STEP_NANOS {
            self.position - SEEK_STEP_NANOS
        } else {
            0
        };
        let mut actions: Vec<EngineAction> = Vec::new();
        actions.push(EngineAction::Seek(target));
        proof {
            assert(actions@ =~= seq![EngineAction::Seek(target)]);
        }
        CommandEffect { actions, messages: Vec::new() }
    }
}

/// LAW: the enqueue/dequeue round trip. After `enqueue(track)`, a
/// `dequeue()` points the engine at exactly `track`'s URI and emits
/// exactly one `ReachedEndOfSong` followed by exactly one
/// `RequestNextSong`, and nothing else.
pub proof fn lemma_enqueue_dequeue_round_trip(
    b0: Backend,
    b1: Backend,
    b2: Backend,
    track: Song,
    actions: Seq<EngineAction>,
    messages: Seq<BackendMessage>,
)
    requires
        enqueue_post(b0, Some(track), b1),
        dequeue_post(b1, b2, actions, messages),
    ensures
        actions.len() == 1,
        actions[0] matches EngineAction::SetUri(u) && u@ == spec_uri_of(track.path@),
        messages =~= seq![BackendMessage::ReachedEndOfSong, BackendMessage::RequestNextSong],
{
}

/// LAW: a `dequeue()` with nothing enqueued does nothing: no engine
/// request and no message — in particular it never synthesizes the
/// `ReachedEndOfPlaylist` that ends the program; on the last track that
/// message comes from the engine's own end-of-stream signal alone.
pub proof fn lemma_dequeue_empty(
    b0: Backend,
    b1: Backend,
    b2: Backend,
    actions: Seq<EngineAction>,
    messages: Seq<BackendMessage>,
)
    requires
        enqueue_post(b0, None, b1),
        dequeue_post(b1, b2, actions, messages),
    ensures
        actions.len() == 0,
        messages.len() == 0,
{
}

} // verus!
