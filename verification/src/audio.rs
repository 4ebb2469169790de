//! The playback engine: lifecycle state machine, play queue with cursor,
//! volume, and completion monitoring.
//!
//! The engine owns no device and performs no I/O. Every operation mutates the
//! engine's bookkeeping and hands back, as plain values, the notifications to
//! deliver and (for `complete_play`) the token that binds a background monitor
//! to the session it watches. The hosting layer drives the audio output and
//! the network from these results, and reports their outcomes back through
//! `complete_play`, `abort_play`, `notify_track_finished` and `device_failed`.

use vstd::prelude::*;

use crate::types::{PlaybackState, TrackInfo};

verus! {

/// Full scale of the volume setting, in thousandths: a stored volume `v`
/// means the fraction `v / 1000` of maximum output.
pub const VOLUME_MAX: u32 = 1000;

/// Volume a fresh engine starts with: half of full scale.
pub const DEFAULT_VOLUME: u32 = 500;

/// Number of monitor polls after which a session counts as complete.
pub const MONITOR_MAX_CHECKS: u32 = 3000;

/// Pause between two monitor polls, in milliseconds.
pub const MONITOR_POLL_INTERVAL_MS: u64 = 100;

/// Delay before a fresh monitor starts polling, in milliseconds.
pub const MONITOR_START_DELAY_MS: u64 = 500;

/// An operation failure the engine reports to its caller.
#[derive(Debug, Clone, Copy, PartialEq, Eq, Structural)]
pub enum AudioError {
    /// The operation is not legal in the current lifecycle state.
    InvalidState,
    /// Resolving the track's stream URL failed.
    ResolutionFailed,
    /// Fetching the audio bytes failed.
    FetchFailed,
    /// Decoding the audio bytes failed.
    DecodeFailed,
    /// The output primitive cannot do this (seeking).
    Unsupported,
}

/// Which step of loading a track went wrong.
#[derive(Debug, Clone, Copy, PartialEq, Eq, Structural)]
pub enum LoadFailure {
    Resolution,
    Fetch,
    Decode,
}

/// A notification for the UI layer. Delivery is fire-and-forget; the engine
/// only says what to emit and in what order.
#[derive(Debug, Clone, PartialEq)]
pub enum AudioEvent {
    StateChanged(PlaybackState),
    TrackChanged(TrackInfo),
    TrackFinished,
}

/// Capability that ties one background monitor to one session. A token is
/// handed out exactly once, by `complete_play`, and is accepted again only
/// while the session it names is still the live, playing one.
#[derive(Debug, Clone, Copy, PartialEq, Eq, Structural)]
pub struct MonitorToken {
    id: u64,
}

impl View for MonitorToken {
    type V = int;

    closed spec fn view(&self) -> int {
        self.id as int
    }
}

/// Mathematical image of the engine: what every contract speaks of.
#[verifier::ext_equal]
pub struct EngineView {
    pub state: PlaybackState,
    pub track: Option<TrackInfo>,
    /// Volume in thousandths of full scale.
    pub volume: int,
    pub queue: Seq<TrackInfo>,
    pub index: int,
    /// Counts the sessions installed so far; names the current one.
    pub session: int,
    /// Whether an output sink is installed (a session is live).
    pub live: bool,
}

/// Well-formedness of an engine view: volume on scale, cursor in bounds
/// (pinned to zero for an empty queue), and a session live exactly in the
/// `Playing` and `Paused` states, carrying a current track exactly then.
pub open spec fn engine_wf(v: EngineView) -> bool {
    &&& 0 <= v.volume <= VOLUME_MAX as int
    &&& 0 <= v.session
    &&& if v.queue.len() == 0 {
        v.index == 0
    } else {
        0 <= v.index < v.queue.len()
    }
    &&& v.live <==> (v.state is Playing || v.state is Paused)
    &&& v.track is Some <==> v.live
}

/// The state of a brand-new engine.
pub open spec fn initial_engine() -> EngineView {
    EngineView {
        state: PlaybackState::Stopped,
        track: None,
        volume: DEFAULT_VOLUME as int,
        queue: Seq::empty(),
        index: 0,
        session: 0,
        live: false,
    }
}

/// A requested volume, forced onto the `[0, VOLUME_MAX]` scale.
pub open spec fn clamped_volume(x: int) -> int {
    if x < 0 {
        0
    } else if x > VOLUME_MAX as int {
        VOLUME_MAX as int
    } else {
        x
    }
}

/// Where the cursor lands when a queue of length `len` replaces the old one
/// with requested start position `start`.
pub open spec fn clamped_index(len: int, start: int) -> int {
    if len == 0 {
        0
    } else if start < len {
        start
    } else {
        len - 1
    }
}

/// Storing a volume changes nothing but the volume field.
pub open spec fn spec_set_volume(v: EngineView, x: int) -> EngineView {
    EngineView { volume: clamped_volume(x), ..v }
}

/// Replacing the queue clamps the cursor and touches nothing else.
pub open spec fn spec_set_queue(v: EngineView, q: Seq<TrackInfo>, start: int) -> EngineView {
    EngineView { queue: q, index: clamped_index(q.len() as int, start), ..v }
}

/// Cursor advance: the next track and the view after, or no movement at the
/// end of the queue.
pub open spec fn spec_next(v: EngineView) -> (Option<TrackInfo>, EngineView) {
    if v.index + 1 < v.queue.len() {
        (Some(v.queue[v.index + 1]), EngineView { index: v.index + 1, ..v })
    } else {
        (None, v)
    }
}

/// Cursor retreat: the previous track and the view after, or no movement at
/// the front of the queue.
pub open spec fn spec_prev(v: EngineView) -> (Option<TrackInfo>, EngineView) {
    if v.index > 0 {
        (Some(v.queue[v.index - 1]), EngineView { index: v.index - 1, ..v })
    } else {
        (None, v)
    }
}

/// Teardown at the start of `play`: any session is discarded (which strands
/// every outstanding monitor token) and the engine loads.
pub open spec fn spec_begin_play(v: EngineView) -> EngineView {
    EngineView { state: PlaybackState::Loading, track: None, live: false, ..v }
}

/// A successful load installs a new session: `Playing`, the new track, and a
/// fresh session number that no earlier token can name.
pub open spec fn spec_install_play(v: EngineView, t: TrackInfo) -> EngineView {
    EngineView {
        state: PlaybackState::Playing,
        track: Some(t),
        live: true,
        session: v.session + 1,
        ..v
    }
}

/// A failed load leaves the engine stopped with no session and no track.
pub open spec fn spec_abort_play(v: EngineView) -> EngineView {
    EngineView { state: PlaybackState::Stopped, track: None, live: false, ..v }
}

/// Stopping discards the session and the current track; volume, queue and
/// cursor survive.
pub open spec fn spec_stop(v: EngineView) -> EngineView {
    EngineView { state: PlaybackState::Stopped, track: None, live: false, ..v }
}

/// Pausing only moves the state.
pub open spec fn spec_paused(v: EngineView) -> EngineView {
    EngineView { state: PlaybackState::Paused, ..v }
}

/// Resuming only moves the state.
pub open spec fn spec_resumed(v: EngineView) -> EngineView {
    EngineView { state: PlaybackState::Playing, ..v }
}

/// When the engine accepts a completion report: only from the monitor whose
/// token names the live, still-playing session.
pub open spec fn spec_monitor_accepts(v: EngineView, token: int) -> bool {
    v.live && v.state is Playing && token == v.session
}

/// The error reported for each step of loading that can fail.
pub open spec fn failure_error(f: LoadFailure) -> AudioError {
    match f {
        LoadFailure::Resolution => AudioError::ResolutionFailed,
        LoadFailure::Fetch => AudioError::FetchFailed,
        LoadFailure::Decode => AudioError::DecodeFailed,
    }
}

/// The playback engine. Fields are reachable only through the operations
/// below, so every reachable value satisfies `engine_wf`.
#[derive(Debug)]
pub struct AudioManager {
    state: PlaybackState,
    current_track: Option<TrackInfo>,
    /// Volume in thousandths of full scale.
    volume: u32,
    queue: Vec<TrackInfo>,
    current_index: usize,
    /// Number of sessions installed so far; names the current one.
    session_id: u64,
    /// Whether a session (an output sink) is installed.
    has_sink: bool,
}

impl View for AudioManager {
    type V = EngineView;

    closed spec fn view(&self) -> EngineView {
        EngineView {
            state: self.state,
            track: self.current_track,
            volume: self.volume as int,
            queue: self.queue@,
            index: self.current_index as int,
            session: self.session_id as int,
            live: self.has_sink,
        }
    }
}

impl AudioManager {
    /// Well-formedness of this engine.
    pub open spec fn inv(&self) -> bool {
        engine_wf(self@)
    }

    /// A fresh engine: stopped, silent queue, default volume, no session.
    pub fn new() -> (m: AudioManager)
        ensures
            m.inv(),
            m@ == initial_engine(),
    {
        let m = AudioManager {
            state: PlaybackState::Stopped,
            current_track: None,
            volume: DEFAULT_VOLUME,
            queue: Vec::new(),
            current_index: 0,
            session_id: 0,
            has_sink: false,
        };
        proof {
            assert(m@ =~= initial_engine());
        }
        m
    }

    /// First half of `play`: tear down whatever session exists — which
    /// strands every outstanding monitor token — and enter `Loading`. The
    /// caller then resolves, fetches and decodes, and reports back through
    /// `complete_play` or `abort_play`.
    pub fn begin_play(&mut self) -> (ev: Vec<AudioEvent>)
        requires
            old(self).inv(),
        ensures
            final(self).inv(),
            final(self)@ == spec_begin_play(old(self)@),
            ev@ == seq![AudioEvent::StateChanged(PlaybackState::Loading)],
    {
        self.has_sink = false;
        self.current_track = None;
        self.state = PlaybackState::Loading;
        let mut ev: Vec<AudioEvent> = Vec::new();
        ev.push(AudioEvent::StateChanged(PlaybackState::Loading));
        proof {
            assert(self@ =~= spec_begin_play(old(self)@));
            assert(ev@ =~= seq![AudioEvent::StateChanged(PlaybackState::Loading)]);
        }
        ev
    }

    /// Second half of a successful `play`: install the session for `track`,
    /// enter `Playing`, and hand out the token that binds the new monitor to
    /// this session, together with the notifications to emit.
    pub fn complete_play(&mut self, track: TrackInfo) -> (r: (MonitorToken, Vec<AudioEvent>))
        requires
            old(self).inv(),
            old(self)@.state is Loading,
            old(self)@.session < u64::MAX as int,
        ensures
            final(self).inv(),
            final(self)@ == spec_install_play(old(self)@, track),
            r.0@ == final(self)@.session,
            r.1@ == seq![
                AudioEvent::StateChanged(PlaybackState::Playing),
                AudioEvent::TrackChanged(track),
            ],
    {
        self.session_id = self.session_id + 1;
        self.has_sink = true;
        self.current_track = Some(track.clone());
        self.state = PlaybackState::Playing;
        let token = MonitorToken { id: self.session_id };
        let mut ev: Vec<AudioEvent> = Vec::new();
        ev.push(AudioEvent::StateChanged(PlaybackState::Playing));
        ev.push(AudioEvent::TrackChanged(track));
        proof {
            assert(self@ =~= spec_install_play(old(self)@, track));
            assert(ev@ =~= seq![
                AudioEvent::StateChanged(PlaybackState::Playing),
                AudioEvent::TrackChanged(track),
            ]);
        }
        (token, ev)
    }

    /// Second half of a failed `play`: no partial session survives, the
    /// engine is stopped with no track, and the caller gets the typed error
    /// for the step that failed.
    pub fn abort_play(&mut self, failure: LoadFailure) -> (r: (AudioError, Vec<AudioEvent>))
        requires
            old(self).inv(),
            old(self)@.state is Loading,
        ensures
            final(self).inv(),
            final(self)@ == spec_abort_play(old(self)@),
            r.0 == failure_error(failure),
            r.1@ == seq![AudioEvent::StateChanged(PlaybackState::Stopped)],
    {
        self.has_sink = false;
        self.current_track = None;
        self.state = PlaybackState::Stopped;
        let err = match failure {
            LoadFailure::Resolution => AudioError::ResolutionFailed,
            LoadFailure::Fetch => AudioError::FetchFailed,
            LoadFailure::Decode => AudioError::DecodeFailed,
        };
        let mut ev: Vec<AudioEvent> = Vec::new();
        ev.push(AudioEvent::StateChanged(PlaybackState::Stopped));
        proof {
            assert(self@ =~= spec_abort_play(old(self)@));
            assert(ev@ =~= seq![AudioEvent::StateChanged(PlaybackState::Stopped)]);
        }
        (err, ev)
    }

    /// Suspend output. Legal exactly in `Playing`; in every other state the
    /// engine is unchanged and `InvalidState` comes back.
    pub fn pause(&mut self) -> (r: Result<(), AudioError>)
        requires
            old(self).inv(),
        ensures
            final(self).inv(),
            old(self)@.state is Playing ==> r is Ok && final(self)@ == spec_paused(old(self)@),
            !(old(self)@.state is Playing) ==> r == Err::<(), AudioError>(
                AudioError::InvalidState,
            ) && final(self)@ == old(self)@,
    {
        if self.state == PlaybackState::Playing {
            self.state = PlaybackState::Paused;
            proof {
                assert(self@ =~= spec_paused(old(self)@));
            }
            Ok(())
        } else {
            Err(AudioError::InvalidState)
        }
    }

    /// Resume output. Legal exactly in `Paused`; in every other state the
    /// engine is unchanged and `InvalidState` comes back.
    pub fn resume(&mut self) -> (r: Result<(), AudioError>)
        requires
            old(self).inv(),
        ensures
            final(self).inv(),
            old(self)@.state is Paused ==> r is Ok && final(self)@ == spec_resumed(old(self)@),
            !(old(self)@.state is Paused) ==> r == Err::<(), AudioError>(
                AudioError::InvalidState,
            ) && final(self)@ == old(self)@,
    {
        if self.state == PlaybackState::Paused {
            self.state = PlaybackState::Playing;
            proof {
                assert(self@ =~= spec_resumed(old(self)@));
            }
            Ok(())
        } else {
            Err(AudioError::InvalidState)
        }
    }

    /// Halt playback: discard the session and the current track, strand every
    /// outstanding monitor token, keep volume, queue and cursor. Legal from
    /// any state but `Stopped`.
    pub fn stop(&mut self) -> (r: Result<(), AudioError>)
        requires
            old(self).inv(),
        ensures
            final(self).inv(),
            !(old(self)@.state is Stopped) ==> r is Ok && final(self)@ == spec_stop(old(self)@),
            old(self)@.state is Stopped ==> r == Err::<(), AudioError>(
                AudioError::InvalidState,
            ) && final(self)@ == old(self)@,
    {
        if self.state == PlaybackState::Stopped {
            Err(AudioError::InvalidState)
        } else {
            self.has_sink = false;
            self.current_track = None;
            self.state = PlaybackState::Stopped;
            proof {
                assert(self@ =~= spec_stop(old(self)@));
            }
            Ok(())
        }
    }

    /// Store the requested volume, clamped onto the scale. Always succeeds,
    /// with or without a live session; the stored value is exactly what
    /// `get_volume` then reports.
    pub fn set_volume(&mut self, volume: i64) -> (r: Result<(), AudioError>)
        requires
            old(self).inv(),
        ensures
            final(self).inv(),
            r is Ok,
            final(self)@ == spec_set_volume(old(self)@, volume as int),
    {
        let clamped: u32 = if volume < 0 {
            0
        } else if volume > VOLUME_MAX as i64 {
            VOLUME_MAX
        } else {
            volume as u32
        };
        self.volume = clamped;
        proof {
            assert(self@ =~= spec_set_volume(old(self)@, volume as int));
        }
        Ok(())
    }

    /// The current track, if a session is live.
    pub fn get_current_track(&self) -> (r: Option<TrackInfo>)
        ensures
            r == self@.track,
    {
        match &self.current_track {
            Some(t) => Some(t.clone()),
            None => None,
        }
    }

    /// The current lifecycle state.
    pub fn get_playback_state(&self) -> (r: PlaybackState)
        ensures
            r == self@.state,
    {
        self.state
    }

    /// The stored volume, in thousandths of full scale.
    pub fn get_volume(&self) -> (r: u32)
        ensures
            r as int == self@.volume,
    {
        self.volume
    }

    /// Replace the queue wholesale; the cursor is clamped into the new queue
    /// (to zero when it is empty) and playback is not touched.
    pub fn set_queue(&mut self, queue: Vec<TrackInfo>, start_index: usize)
        requires
            old(self).inv(),
        ensures
            final(self).inv(),
            final(self)@ == spec_set_queue(old(self)@, queue@, start_index as int),
    {
        let len: usize = queue.len();
        self.queue = queue;
        self.current_index = if len == 0 {
            0
        } else if start_index < len {
            start_index
        } else {
            len - 1
        };
        proof {
            assert(self@ =~= spec_set_queue(old(self)@, self.queue@, start_index as int));
        }
    }

    /// The whole queue, in order.
    pub fn get_queue(&self) -> (r: &Vec<TrackInfo>)
        ensures
            r@ == self@.queue,
    {
        &self.queue
    }

    /// The cursor position.
    pub fn get_current_index(&self) -> (r: usize)
        ensures
            r as int == self@.index,
    {
        self.current_index
    }

    /// Advance the cursor and return the track it now points at, or `None` —
    /// no error, no movement — at the end of the queue. Does not itself start
    /// playback.
    pub fn next_track(&mut self) -> (r: Option<TrackInfo>)
        requires
            old(self).inv(),
        ensures
            final(self).inv(),
            r == spec_next(old(self)@).0,
            final(self)@ == spec_next(old(self)@).1,
    {
        let len: usize = self.queue.len();
        if len > 0 && self.current_index < len - 1 {
            self.current_index = self.current_index + 1;
            let t = self.queue[self.current_index].clone();
            proof {
                assert(self@ =~= spec_next(old(self)@).1);
            }
            Some(t)
        } else {
            None
        }
    }

    /// Retreat the cursor and return the track it now points at, or `None` —
    /// no error, no movement — at the front of the queue.
    pub fn previous_track(&mut self) -> (r: Option<TrackInfo>)
        requires
            old(self).inv(),
        ensures
            final(self).inv(),
            r == spec_prev(old(self)@).0,
            final(self)@ == spec_prev(old(self)@).1,
    {
        if self.current_index > 0 {
            self.current_index = self.current_index - 1;
            let t = self.queue[self.current_index].clone();
            proof {
                assert(self@ =~= spec_prev(old(self)@).1);
            }
            Some(t)
        } else {
            None
        }
    }

    /// Seeking is unsupported by the output primitive in this design: every
    /// call fails with `Unsupported` and changes nothing.
    pub fn seek_to(&mut self, position_ms: u64) -> (r: Result<(), AudioError>)
        ensures
            r == Err::<(), AudioError>(AudioError::Unsupported),
            final(self)@ == old(self)@,
    {
        let _ = position_ms;
        Err(AudioError::Unsupported)
    }

    /// Playback position. True position tracking is out of scope; this is
    /// always zero.
    pub fn get_position(&self) -> (r: u64)
        ensures
            r == 0,
    {
        0
    }

    /// The number naming the current session; a `MonitorToken` is accepted
    /// only while it carries this number.
    pub fn session_generation(&self) -> (r: u64)
        ensures
            r as int == self@.session,
    {
        self.session_id
    }

    /// Whether a completion report with this token would be accepted now:
    /// only while the session the token names is still the live, playing one.
    pub fn monitor_valid(&self, token: MonitorToken) -> (r: bool)
        ensures
            r == spec_monitor_accepts(self@, token@),
    {
        self.has_sink && self.state == PlaybackState::Playing && token.id == self.session_id
    }

    /// A monitor reports that its session has played to its end. Accepted
    /// only from the monitor of the live, still-playing session: then the
    /// engine stops, clears the track, and asks for `TrackFinished` — exactly
    /// once per natural completion — followed by the state change. A stale
    /// token (its session replaced or cleared since) changes nothing and
    /// emits nothing.
    pub fn notify_track_finished(&mut self, token: MonitorToken) -> (ev: Vec<AudioEvent>)
        requires
            old(self).inv(),
        ensures
            final(self).inv(),
            spec_monitor_accepts(old(self)@, token@) ==> final(self)@ == spec_stop(old(self)@)
                && ev@ == seq![
                AudioEvent::TrackFinished,
                AudioEvent::StateChanged(PlaybackState::Stopped),
            ],
            !spec_monitor_accepts(old(self)@, token@) ==> final(self)@ == old(self)@ && ev@
                == Seq::<AudioEvent>::empty(),
    {
        let mut ev: Vec<AudioEvent> = Vec::new();
        if self.has_sink && self.state == PlaybackState::Playing && token.id == self.session_id {
            self.has_sink = false;
            self.current_track = None;
            self.state = PlaybackState::Stopped;
            ev.push(AudioEvent::TrackFinished);
            ev.push(AudioEvent::StateChanged(PlaybackState::Stopped));
            proof {
                assert(self@ =~= spec_stop(old(self)@));
                assert(ev@ =~= seq![
                    AudioEvent::TrackFinished,
                    AudioEvent::StateChanged(PlaybackState::Stopped),
                ]);
            }
        }
        ev
    }

    /// The hosting layer reports that the output device failed mid-session.
    /// With a live session this is stop-equivalent, announced like a finished
    /// track so the UI does not hang; without one it is a no-op.
    pub fn device_failed(&mut self) -> (ev: Vec<AudioEvent>)
        requires
            old(self).inv(),
        ensures
            final(self).inv(),
            old(self)@.live ==> final(self)@ == spec_stop(old(self)@) && ev@ == seq![
                AudioEvent::TrackFinished,
                AudioEvent::StateChanged(PlaybackState::Stopped),
            ],
            !old(self)@.live ==> final(self)@ == old(self)@ && ev@ == Seq::<AudioEvent>::empty(),
    {
        let mut ev: Vec<AudioEvent> = Vec::new();
        if self.has_sink {
            self.has_sink = false;
            self.current_track = None;
            self.state = PlaybackState::Stopped;
            ev.push(AudioEvent::TrackFinished);
            ev.push(AudioEvent::StateChanged(PlaybackState::Stopped));
            proof {
                assert(self@ =~= spec_stop(old(self)@));
                assert(ev@ =~= seq![
                    AudioEvent::TrackFinished,
                    AudioEvent::StateChanged(PlaybackState::Stopped),
                ]);
            }
        }
        ev
    }
}

impl Default for AudioManager {
    /// Same engine as `new` hands out.
    fn default() -> (m: AudioManager)
        ensures
            m.inv(),
            m@ == initial_engine(),
    {
        AudioManager::new()
    }
}

/// One poll step of a monitor loop keeps going, emits, or exits.
#[derive(Debug, Clone, Copy, PartialEq, Eq, Structural)]
pub enum MonitorStep {
    /// Keep polling.
    Continue,
    /// The duration budget is spent: report completion, then exit.
    EmitFinished,
    /// The hosting context is gone: exit without reporting anything.
    Exit,
}

/// The decision state of one background monitor. The hosting layer sleeps
/// `MONITOR_START_DELAY_MS`, then calls `tick` every
/// `MONITOR_POLL_INTERVAL_MS` until it answers something other than
/// `Continue`; on `EmitFinished` it hands the monitor's token to
/// `AudioManager::notify_track_finished`, which alone decides whether the
/// completion still counts.
#[derive(Debug)]
pub struct Monitor {
    token: MonitorToken,
    checks: u32,
}

impl Monitor {
    /// The session this monitor is bound to.
    pub closed spec fn spec_token(&self) -> int {
        self.token@
    }

    /// How many polls have happened.
    pub closed spec fn spec_checks(&self) -> int {
        self.checks as int
    }

    /// The poll count never passes the budget.
    pub open spec fn inv(&self) -> bool {
        0 <= self.spec_checks() <= MONITOR_MAX_CHECKS as int
    }

    /// A fresh monitor for the session `token` names.
    pub fn new(token: MonitorToken) -> (m: Monitor)
        ensures
            m.inv(),
            m.spec_token() == token@,
            m.spec_checks() == 0,
    {
        Monitor { token, checks: 0 }
    }

    /// The token this monitor hands in with its completion report.
    pub fn token(&self) -> (t: MonitorToken)
        ensures
            t@ == self.spec_token(),
    {
        self.token
    }

    /// One poll. If the hosting context is gone the monitor exits silently,
    /// without counting the poll. Otherwise the poll counts, and once the
    /// budget is spent — and only then — the step says to report completion.
    pub fn tick(&mut self, context_alive: bool) -> (step: MonitorStep)
        requires
            old(self).inv(),
            old(self).spec_checks() < MONITOR_MAX_CHECKS as int,
        ensures
            final(self).inv(),
            final(self).spec_token() == old(self).spec_token(),
            !context_alive ==> step == MonitorStep::Exit && final(self).spec_checks() == old(
                self,
            ).spec_checks(),
            context_alive ==> final(self).spec_checks() == old(self).spec_checks() + 1,
            (context_alive && old(self).spec_checks() + 1 == MONITOR_MAX_CHECKS as int)
                ==> step == MonitorStep::EmitFinished,
            (context_alive && old(self).spec_checks() + 1 < MONITOR_MAX_CHECKS as int)
                ==> step == MonitorStep::Continue,
    {
        if !context_alive {
            return MonitorStep::Exit;
        }
        self.checks = self.checks + 1;
        if self.checks >= MONITOR_MAX_CHECKS {
            MonitorStep::EmitFinished
        } else {
            MonitorStep::Continue
        }
    }
}

/// Law: for every requested volume, what `set_volume` stores — and what
/// `get_volume` therefore reports — is exactly the request clamped onto the
/// scale, with or without a live session, and every other field survives.
pub proof fn lemma_volume_round_trip(v: EngineView, x: int)
    requires
        engine_wf(v),
    ensures
        spec_set_volume(v, x).volume == clamped_volume(x),
        0 <= clamped_volume(x) <= VOLUME_MAX as int,
        engine_wf(spec_set_volume(v, x)),
        spec_set_volume(v, x) == (EngineView { volume: clamped_volume(x), ..v }),
{
}

/// Law: stopping from any state clears the current track and the session and
/// lands in `Stopped`, while volume, queue and cursor survive.
pub proof fn lemma_stop_clears_session(v: EngineView)
    requires
        engine_wf(v),
    ensures
        spec_stop(v).state is Stopped,
        spec_stop(v).track is None,
        !spec_stop(v).live,
        spec_stop(v).volume == v.volume,
        spec_stop(v).queue == v.queue,
        spec_stop(v).index == v.index,
        engine_wf(spec_stop(v)),
{
}

/// Law: replacing the queue by an empty one pins the cursor at zero, and
/// neither `next_track` nor `previous_track` then moves or returns anything.
pub proof fn lemma_empty_queue_has_no_neighbours(v: EngineView, start: int)
    requires
        engine_wf(v),
    ensures
        ({
            let v2 = spec_set_queue(v, Seq::<TrackInfo>::empty(), start);
            &&& v2.index == 0
            &&& spec_next(v2).0 is None
            &&& spec_next(v2).1 == v2
            &&& spec_prev(v2).0 is None
            &&& spec_prev(v2).1 == v2
        }),
{
}

/// Law: the cursor stops at both ends — at the last element `next_track`
/// returns `None` and moves nothing, at the first element `previous_track`
/// returns `None` and moves nothing.
pub proof fn lemma_cursor_stops_at_boundaries(v: EngineView)
    requires
        engine_wf(v),
        v.queue.len() > 0,
    ensures
        v.index == v.queue.len() - 1 ==> spec_next(v).0 is None && spec_next(v).1 == v,
        v.index == 0 ==> spec_prev(v).0 is None && spec_prev(v).1 == v,
{
}

/// Law: no stale completion. Every token handed out up to now carries at most
/// the current session number; once a new `play` begins, neither the loading
/// engine nor the engine with the next session installed accepts such a
/// token, so the old session's monitor can never report it finished.
pub proof fn lemma_no_stale_completion(v: EngineView, t: TrackInfo, token: int)
    requires
        engine_wf(v),
        token <= v.session,
    ensures
        !spec_monitor_accepts(spec_begin_play(v), token),
        !spec_monitor_accepts(spec_install_play(spec_begin_play(v), t), token),
{
}

/// Law: a failed load is invisible afterwards — the engine it leaves behind
/// is exactly the stopped, sessionless engine, whichever step failed.
pub proof fn lemma_failed_play_leaves_no_trace(v: EngineView)
    requires
        engine_wf(v),
    ensures
        spec_abort_play(spec_begin_play(v)) == spec_stop(spec_begin_play(v)),
        spec_abort_play(spec_begin_play(v)).state is Stopped,
        spec_abort_play(spec_begin_play(v)).track is None,
        !spec_abort_play(spec_begin_play(v)).live,
{
    assert(spec_abort_play(spec_begin_play(v)) =~= spec_stop(spec_begin_play(v)));
}

} // verus!
