//! The transport state machine of the playback engine.
//!
//! The engine owns the live [`PlayerState`], the active [`Session`] and the
//! last source path. Its control loop runs one iteration at a time: drain at
//! most one pending command, then act according to the current state. All
//! decisions are made here, in verified code; the unverified shell performs
//! the file, decoder and device work those decisions call for and reports
//! each outcome back as a plain value.
//!
//! Every mutating operation is specified as equality with a spec-level
//! transition function, so properties of whole command sequences can be
//! stated and proved over those functions alone.

use vstd::prelude::*;

use crate::commands::AudioCommand;
use crate::commands::PlayerState;
use crate::commands::UiCommand;

verus! {

/// Plain-value model of one track of a probed container: its numeric
/// identifier and whether its codec is known (not the null codec).
#[derive(Debug, Clone, Copy, PartialEq, Eq, Structural)]
pub struct TrackInfo {
    pub id: u32,
    pub supported: bool,
}

/// Immutable snapshot of `{track_id, seek_ts}` computed once per load or
/// seek and consulted for every subsequent packet: packets of other tracks
/// are discarded, and decoded frames with presentation time below `seek_ts`
/// are decoded but not written to the output (soft seek).
#[derive(Debug, Clone, Copy, PartialEq, Eq, Structural)]
pub struct PlayTrackOptions {
    pub track_id: u32,
    pub seek_ts: u64,
}

/// What the reader reported for an accurate-seek request.
#[derive(Debug, Clone, Copy, PartialEq, Eq, Structural)]
pub enum SeekOutcome {
    /// The seek succeeded; this is the timestamp actually reached, which
    /// becomes the trim threshold.
    Seeked(u64),
    /// The reader must be reset: a decodable track is re-selected from
    /// scratch and the trim threshold becomes 0.
    ResetRequired,
    /// Any other seek error; never fatal, the trim threshold becomes 0.
    Failed,
}

/// Classification of a failure reported by the demux/decode collaborators.
#[derive(Debug, Clone, Copy, PartialEq, Eq, Structural)]
pub enum AudioError {
    /// The expected terminal condition of a stream; not an error.
    EndOfStream,
    /// A malformed packet; recoverable, playback continues.
    Decode,
    /// An I/O failure other than end of stream; fatal to the loop.
    Io,
    /// The reader requires a reset.
    Reset,
    /// Any other failure; fatal to the loop.
    Other,
}

/// The demux/decode session: one source bound to a selected track, with the
/// state of its output sink. Exactly one session is live at a time; loading
/// a new file replaces it wholesale.
#[derive(Debug, Clone, PartialEq)]
pub struct Session {
    /// The source path this session was opened for.
    pub path: String,
    /// The `{track_id, seek_ts}` pair filtering and trimming its packets.
    pub opts: PlayTrackOptions,
    /// Whether the output sink has been opened (on first successful decode).
    pub sink_open: bool,
    /// Whether the decode loop for this session has ended (end of stream or
    /// a fatal error); a finished session is never decoded again.
    pub finished: bool,
}

/// What the unverified shell must do after one control-loop decision.
#[derive(Debug, Clone, PartialEq)]
pub enum IterAction {
    /// Nothing to do this iteration.
    Idle,
    /// Flush and release the output sink.
    FlushSink,
    /// Flush and release any sink, then run the load procedure against
    /// `path` with the given seek offset in seconds.
    StartLoad { path: String, seek_seconds: u64 },
    /// Run the decode/output loop for the live session.
    RunDecodeLoop,
}

/// Sink directives after one successful decode.
#[derive(Debug, Clone, Copy, PartialEq, Eq, Structural)]
pub struct WriteCmd {
    /// The sink is not open yet: open it from the decoded buffer's format.
    pub open_sink: bool,
    /// The packet reached the trim threshold: write the decoded samples.
    pub write_samples: bool,
}

/// The engine: single authority for the transport state, the session and
/// the engine-local volume.
#[derive(Debug, Clone, PartialEq)]
pub struct Engine {
    pub state: PlayerState,
    /// The last source path a load was begun for; a later seek re-runs the
    /// load procedure against it.
    pub current_track_path: Option<String>,
    pub session: Option<Session>,
    /// A preferred track index, set by `Select` and consulted on load.
    pub track_num: Option<usize>,
    /// Output gain in hundredths of full scale.
    pub volume: u32,
}

impl Engine {
    /// The index `Iterator::find` would pick: the first track whose codec
    /// is known.
    pub open spec fn spec_first_supported(tracks: Seq<TrackInfo>) -> Option<int>
        decreases tracks.len(),
    {
        if tracks.len() == 0 {
            None
        } else if tracks[0].supported {
            Some(0)
        } else {
            match Self::spec_first_supported(tracks.drop_first()) {
                Some(i) => Some(i + 1),
                None => None,
            }
        }
    }

    /// The engine after one command has been drained and applied. A command
    /// that is not meaningful in the current state is a no-op.
    pub open spec fn spec_process_cmd(self, cmd: Option<AudioCommand>) -> Engine {
        match cmd {
            None => self,
            Some(AudioCommand::Stop) => Engine { state: PlayerState::Stopped, ..self },
            Some(AudioCommand::Play) => Engine { state: PlayerState::Playing, ..self },
            Some(AudioCommand::Pause) => Engine { state: PlayerState::Paused, ..self },
            Some(AudioCommand::Seek(s)) => Engine { state: PlayerState::SeekTo(s), ..self },
            Some(AudioCommand::LoadFile(p)) => Engine { state: PlayerState::LoadFile(p), ..self },
            Some(AudioCommand::Select(i)) => Engine { track_num: Some(i), ..self },
            Some(AudioCommand::SetVolume(v)) => Engine { volume: v, ..self },
        }
    }

    /// The engine with its sink released, if a session holds one.
    pub open spec fn spec_close_sink(self) -> Engine {
        match self.session {
            Some(s) => Engine { session: Some(Session { sink_open: false, ..s }), ..self },
            None => self,
        }
    }

    /// Whether the live session holds an open sink.
    pub open spec fn spec_sink_open(self) -> bool {
        match self.session {
            Some(s) => s.sink_open,
            None => false,
        }
    }

    /// Whether the decode/output loop may run: the state is `Playing` and a
    /// live, unfinished session exists.
    pub open spec fn in_decode_loop(self) -> bool {
        &&& self.state is Playing
        &&& match self.session {
            Some(s) => !s.finished,
            None => false,
        }
    }

    /// The live session's packet options.
    pub open spec fn cur_opts(self) -> PlayTrackOptions
        recommends
            self.session is Some,
    {
        match self.session {
            Some(s) => s.opts,
            None => PlayTrackOptions { track_id: 0, seek_ts: 0 },
        }
    }

    /// The engine after the decision step of one control-loop iteration.
    pub open spec fn spec_iter_next(self) -> Engine {
        match self.state {
            PlayerState::Unstarted => self,
            PlayerState::Paused => self,
            PlayerState::Playing => self,
            PlayerState::Stopped => self.spec_close_sink(),
            PlayerState::LoadFile(p) => (Engine {
                current_track_path: Some(p),
                ..self.spec_close_sink()
            }),
            PlayerState::SeekTo(_) => {
                if self.current_track_path is Some {
                    self.spec_close_sink()
                } else {
                    self
                }
            },
        }
    }

    /// The action the shell must take for one control-loop iteration.
    pub open spec fn spec_iter_action(self) -> IterAction {
        match self.state {
            PlayerState::Unstarted => IterAction::Idle,
            PlayerState::Paused => IterAction::Idle,
            PlayerState::Playing => {
                if self.in_decode_loop() {
                    IterAction::RunDecodeLoop
                } else {
                    IterAction::Idle
                }
            },
            PlayerState::Stopped => {
                if self.spec_sink_open() {
                    IterAction::FlushSink
                } else {
                    IterAction::Idle
                }
            },
            PlayerState::LoadFile(p) => IterAction::StartLoad { path: p, seek_seconds: 0 },
            PlayerState::SeekTo(s) => {
                match self.current_track_path {
                    Some(p) => IterAction::StartLoad { path: p, seek_seconds: s },
                    None => IterAction::Idle,
                }
            },
        }
    }

    /// The engine after the load procedure succeeded: the new session is
    /// installed, sink closed and unfinished, and playback begins.
    pub open spec fn spec_complete_load(self, path: String, opts: PlayTrackOptions) -> Engine {
        Engine {
            state: PlayerState::Playing,
            session: Some(Session { path, opts, sink_open: false, finished: false }),
            ..self
        }
    }

    /// The engine after a load was abandoned (unsupported format, missing
    /// file, no decodable track, or decoder construction failure): no
    /// session is installed and the engine idles, able to accept commands.
    pub open spec fn spec_load_failed(self) -> Engine {
        Engine { state: PlayerState::Stopped, session: None, ..self }
    }

    /// The event emitted for every packet pulled from the reader,
    /// regardless of track or trim threshold.
    pub open spec fn spec_packet_emit(self, ts: u64) -> UiCommand {
        UiCommand::CurrentTimestamp(ts)
    }

    /// Whether a packet belongs to the selected track and so is decoded.
    pub open spec fn spec_should_decode(self, track_id: u32) -> bool {
        match self.session {
            Some(s) => track_id == s.opts.track_id,
            None => false,
        }
    }

    /// The sink directives after one successful decode: open the sink if it
    /// is not open yet, and write only at or above the trim threshold.
    pub open spec fn spec_write_cmd(self, ts: u64) -> WriteCmd {
        WriteCmd {
            open_sink: !self.spec_sink_open(),
            write_samples: ts >= self.cur_opts().seek_ts,
        }
    }

    /// The engine after one successful decode: the sink is open.
    pub open spec fn spec_after_decode_ok(self) -> Engine {
        match self.session {
            Some(s) => Engine { session: Some(Session { sink_open: true, ..s }), ..self },
            None => self,
        }
    }

    /// The engine once the decode loop has ended for its session, by end of
    /// stream or by a fatal error.
    pub open spec fn spec_finish_session(self) -> Engine {
        match self.session {
            Some(s) => Engine { session: Some(Session { finished: true, ..s }), ..self },
            None => self,
        }
    }

    /// A fresh engine: unstarted, no source, no session, unity gain.
    pub fn new() -> (e: Engine)
        ensures
            e == (Engine {
                state: PlayerState::Unstarted,
                current_track_path: None,
                session: None,
                track_num: None,
                volume: 100,
            }),
    {
        Engine {
            state: PlayerState::Unstarted,
            current_track_path: None,
            session: None,
            track_num: None,
            volume: 100,
        }
    }

    /// Apply at most one drained transport command. `None` means the
    /// command queue was empty, the common case.
    ///
    /// Every command is accepted in every state: `Stop`, `Play`, `Pause`,
    /// `Seek` and `LoadFile` replace the transport state; `Select` records
    /// the preferred track index for the next load; `SetVolume` sets the
    /// engine-local gain.
    pub fn process_audio_cmd(&mut self, cmd: Option<AudioCommand>)
        ensures
            *final(self) == old(self).spec_process_cmd(cmd),
    {
        match cmd {
            None => {},
            Some(AudioCommand::Stop) => {
                self.state = PlayerState::Stopped;
            },
            Some(AudioCommand::Play) => {
                self.state = PlayerState::Playing;
            },
            Some(AudioCommand::Pause) => {
                self.state = PlayerState::Paused;
            },
            Some(AudioCommand::Seek(s)) => {
                self.state = PlayerState::SeekTo(s);
            },
            Some(AudioCommand::LoadFile(p)) => {
                self.state = PlayerState::LoadFile(p);
            },
            Some(AudioCommand::Select(i)) => {
                self.track_num = Some(i);
            },
            Some(AudioCommand::SetVolume(v)) => {
                self.volume = v;
            },
        }
    }

    /// Decide one control-loop iteration from the current state.
    ///
    /// `StartLoad` directs the shell to flush any sink (the engine already
    /// records it closed) and run the load procedure; `RunDecodeLoop`
    /// directs it to pull and decode packets for the live session.
    pub fn begin_iteration(&mut self) -> (action: IterAction)
        ensures
            *final(self) == old(self).spec_iter_next(),
            action == old(self).spec_iter_action(),
    {
        match &self.state {
            PlayerState::Unstarted => IterAction::Idle,
            PlayerState::Paused => IterAction::Idle,
            PlayerState::Playing => {
                let run = match &self.session {
                    Some(s) => !s.finished,
                    None => false,
                };
                if run {
                    IterAction::RunDecodeLoop
                } else {
                    IterAction::Idle
                }
            },
            PlayerState::Stopped => {
                let was_open = match &self.session {
                    Some(s) => s.sink_open,
                    None => false,
                };
                match &mut self.session {
                    Some(s) => {
                        s.sink_open = false;
                    },
                    None => {},
                }
                if was_open {
                    IterAction::FlushSink
                } else {
                    IterAction::Idle
                }
            },
            PlayerState::LoadFile(p) => {
                let path = p.clone();
                match &mut self.session {
                    Some(s) => {
                        s.sink_open = false;
                    },
                    None => {},
                }
                self.current_track_path = Some(path.clone());
                IterAction::StartLoad { path, seek_seconds: 0 }
            },
            PlayerState::SeekTo(s) => {
                let seconds = *s;
                let path = match &self.current_track_path {
                    Some(p) => Some(p.clone()),
                    None => None,
                };
                match path {
                    Some(path) => {
                        match &mut self.session {
                            Some(s) => {
                                s.sink_open = false;
                            },
                            None => {},
                        }
                        IterAction::StartLoad { path, seek_seconds: seconds }
                    },
                    None => IterAction::Idle,
                }
            },
        }
    }

    /// Install the session the load procedure built and begin playback.
    /// Reports the track's total duration when the container knows it.
    pub fn complete_load(&mut self, path: String, opts: PlayTrackOptions, duration: Option<u64>) -> (ev: Option<
        UiCommand,
    >)
        ensures
            *final(self) == old(self).spec_complete_load(path, opts),
            ev == (match duration {
                Some(d) => Some(UiCommand::TotalTrackDuration(d)),
                None => None::<UiCommand>,
            }),
    {
        self.session = Some(Session { path, opts, sink_open: false, finished: false });
        self.state = PlayerState::Playing;
        match duration {
            Some(d) => Some(UiCommand::TotalTrackDuration(d)),
            None => None,
        }
    }

    /// Abandon the current load: no session is installed, no sink is ever
    /// opened, and the engine idles, still accepting every command.
    pub fn load_failed(&mut self)
        ensures
            *final(self) == old(self).spec_load_failed(),
    {
        self.session = None;
        self.state = PlayerState::Stopped;
    }

    /// Select the track to play: the preferred index if it is set and
    /// valid, otherwise the first track with a known codec. `None` means no
    /// decodable track exists and the load must be abandoned.
    pub fn select_track(&self, tracks: &[TrackInfo]) -> (r: Option<usize>)
        ensures
            (match self.track_num {
                Some(t) => t < tracks@.len(),
                None => false,
            }) ==> r == self.track_num,
            !(match self.track_num {
                Some(t) => t < tracks@.len(),
                None => false,
            }) ==> r == (match Self::spec_first_supported(tracks@) {
                Some(i) => Some(i as usize),
                None => None::<usize>,
            }),
            r matches Some(i) ==> i < tracks@.len(),
    {
        match self.track_num {
            Some(t) if t < tracks.len() => Some(t),
            _ => first_supported_track(tracks),
        }
    }

    /// Resolve the packet options from a seek request's outcome, for the
    /// track at `track_idx`. Seek errors are never fatal: a plain failure
    /// keeps the track with threshold 0, and a required reset re-selects a
    /// decodable track from scratch (`None` only when none exists).
    pub fn resolve_seek(&self, track_idx: usize, outcome: &SeekOutcome, tracks: &[TrackInfo]) -> (r: Option<
        PlayTrackOptions,
    >)
        requires
            track_idx < tracks@.len(),
        ensures
            *outcome matches SeekOutcome::Seeked(ts) ==> r == Some(
                (PlayTrackOptions { track_id: tracks@[track_idx as int].id, seek_ts: ts }),
            ),
            *outcome is Failed ==> r == Some(
                (PlayTrackOptions { track_id: tracks@[track_idx as int].id, seek_ts: 0u64 }),
            ),
            *outcome is ResetRequired ==> r == (match Self::spec_first_supported(tracks@) {
                Some(i) => Some((PlayTrackOptions { track_id: tracks@[i].id, seek_ts: 0u64 })),
                None => None::<PlayTrackOptions>,
            }),
    {
        match outcome {
            SeekOutcome::Seeked(ts) => Some(
                PlayTrackOptions { track_id: tracks[track_idx].id, seek_ts: *ts },
            ),
            SeekOutcome::Failed => Some(
                PlayTrackOptions { track_id: tracks[track_idx].id, seek_ts: 0 },
            ),
            SeekOutcome::ResetRequired => {
                proof {
                    lemma_first_supported_bounds(tracks@);
                }
                match first_supported_track(tracks) {
                    Some(i) => Some(PlayTrackOptions { track_id: tracks[i].id, seek_ts: 0 }),
                    None => None,
                }
            },
        }
    }

    /// One packet was pulled from the reader: report its presentation time
    /// (once per packet, whether or not it is written) and decide whether
    /// it belongs to the selected track and so is decoded.
    pub fn on_packet(&self, track_id: u32, ts: u64) -> (r: (UiCommand, bool))
        requires
            self.in_decode_loop(),
        ensures
            r.0 == self.spec_packet_emit(ts),
            r.1 == self.spec_should_decode(track_id),
    {
        let should_decode = match &self.session {
            Some(s) => track_id == s.opts.track_id,
            None => false,
        };
        (UiCommand::CurrentTimestamp(ts), should_decode)
    }

    /// One packet of the selected track decoded successfully: open the sink
    /// on the first decode, and write the samples only if the packet's
    /// presentation time has reached the trim threshold (soft seek).
    pub fn on_decode_ok(&mut self, ts: u64) -> (w: WriteCmd)
        requires
            old(self).in_decode_loop(),
        ensures
            *final(self) == old(self).spec_after_decode_ok(),
            w == old(self).spec_write_cmd(ts),
    {
        let was_open = match &self.session {
            Some(s) => s.sink_open,
            None => false,
        };
        let threshold = match &self.session {
            Some(s) => s.opts.seek_ts,
            None => 0,
        };
        match &mut self.session {
            Some(s) => {
                s.sink_open = true;
            },
            None => {},
        }
        WriteCmd { open_sink: !was_open, write_samples: ts >= threshold }
    }

    /// The reader signalled end of stream: the session is finished and
    /// exactly one `AudioFinished` event is emitted. Not an error.
    pub fn on_stream_end(&mut self) -> (ev: UiCommand)
        requires
            old(self).in_decode_loop(),
        ensures
            *final(self) == old(self).spec_finish_session(),
            ev == UiCommand::AudioFinished,
    {
        match &mut self.session {
            Some(s) => {
                s.finished = true;
            },
            None => {},
        }
        UiCommand::AudioFinished
    }

    /// A fatal read or decode failure ended the loop: the session is
    /// finished, no event is emitted, and the engine stays alive awaiting
    /// the next command.
    pub fn on_fatal_error(&mut self)
        requires
            old(self).in_decode_loop(),
        ensures
            *final(self) == old(self).spec_finish_session(),
    {
        match &mut self.session {
            Some(s) => {
                s.finished = true;
            },
            None => {},
        }
    }
}

/// Whether a decode failure ends the loop: a malformed packet is
/// recoverable and playback continues; anything else is fatal.
pub open spec fn spec_decode_failure_fatal(err: AudioError) -> bool {
    !(err is Decode)
}

/// Classify one decode failure. Mirrors [`spec_decode_failure_fatal`].
pub fn decode_failure_is_fatal(err: &AudioError) -> (fatal: bool)
    ensures
        fatal == spec_decode_failure_fatal(*err),
{
    match err {
        AudioError::Decode => false,
        _ => true,
    }
}

/// The first track whose codec is known, as `Iterator::find` would pick it.
pub fn first_supported_track(tracks: &[TrackInfo]) -> (r: Option<usize>)
    ensures
        r == (match Engine::spec_first_supported(tracks@) {
            Some(i) => Some(i as usize),
            None => None::<usize>,
        }),
        r matches Some(i) ==> i < tracks@.len() && tracks@[i as int].supported,
{
    let mut i: usize = 0;
    while i < tracks.len()
        invariant
            i <= tracks@.len(),
            forall|j: int| 0 <= j < i ==> !tracks@[j].supported,
        decreases tracks@.len() - i,
    {
        if tracks[i].supported {
            proof {
                lemma_first_supported_found(tracks@, i as int);
            }
            return Some(i);
        }
        i = i + 1;
    }
    proof {
        lemma_first_supported_none(tracks@);
    }
    None
}

/// End of stream is the one read failure that is not an error: it is the
/// only way a reader can indicate the media is complete.
pub fn ignore_end_of_stream_error(result: Result<(), AudioError>) -> (r: Result<(), AudioError>)
    ensures
        result == Err::<(), AudioError>(AudioError::EndOfStream) ==> r == Ok::<(), AudioError>(()),
        result != Err::<(), AudioError>(AudioError::EndOfStream) ==> r == result,
{
    match result {
        Err(AudioError::EndOfStream) => Ok(()),
        _ => result,
    }
}

/// Interpret the decoder's finalization: a failed integrity verification
/// reports 1, a passed or absent one reports 0. Informational, never fatal.
pub fn do_verification(verify_ok: Option<bool>) -> (r: i32)
    ensures
        r == (if verify_ok == Some(false) {
            1i32
        } else {
            0i32
        }),
{
    match verify_ok {
        Some(false) => 1,
        _ => 0,
    }
}

/// Law: a `LoadFile(B)` arriving while `LoadFile(A)` is still pending
/// supersedes it. Only `B` is ever loaded; the iteration that performs the
/// load tears down any prior sink first, and completing it installs `B`'s
/// session as the only one, with its sink closed and unfinished.
pub proof fn lemma_load_supersedes(e: Engine, a: String, b: String, opts: PlayTrackOptions)
    ensures
        ({
            let e1 = e.spec_process_cmd(Some(AudioCommand::LoadFile(a)));
            let e2 = e1.spec_process_cmd(Some(AudioCommand::LoadFile(b)));
            let e3 = e2.spec_iter_next();
            &&& e2.state == PlayerState::LoadFile(b)
            &&& e2.spec_iter_action() == (IterAction::StartLoad { path: b, seek_seconds: 0u64 })
            &&& !e3.spec_sink_open()
            &&& e3.spec_complete_load(b, opts).session == Some(
                (Session { path: b, opts, sink_open: false, finished: false }),
            )
        }),
{
}

/// Law (trim invariant): after a load resolved the packet options, samples
/// of a packet are written if and only if its presentation time has reached
/// the resolved seek timestamp. Packets below the threshold may still be
/// reported, but are never written.
pub proof fn lemma_seek_trim(e: Engine, path: String, opts: PlayTrackOptions, ts: u64)
    ensures
        ts < opts.seek_ts ==> !e.spec_complete_load(path, opts).spec_write_cmd(ts).write_samples,
        ts >= opts.seek_ts ==> e.spec_complete_load(path, opts).spec_write_cmd(ts).write_samples,
{
}

/// Law: a `Seek` command reloads the current source with the requested
/// offset, and once the load resolves the packet options, nothing below
/// the resolved timestamp is written.
pub proof fn lemma_seek_then_play_trims(
    e: Engine,
    seconds: u64,
    path: String,
    opts: PlayTrackOptions,
    ts: u64,
)
    requires
        e.current_track_path is Some,
    ensures
        ({
            let pending = e.spec_process_cmd(Some(AudioCommand::Seek(seconds)));
            let playing = pending.spec_iter_next().spec_complete_load(path, opts);
            &&& pending.spec_iter_action() matches IterAction::StartLoad {
                path: _,
                seek_seconds: sk,
            } && sk == seconds
            &&& ts < opts.seek_ts ==> !playing.spec_write_cmd(ts).write_samples
        }),
{
}

/// Law: `Pause` then `Play` is the identity on the engine. While paused the
/// iteration does nothing — the session, its sink and the reader stay as
/// they are — and resuming restores the engine exactly, so playback goes on
/// without re-opening the sink or reloading the file.
pub proof fn lemma_pause_play_resumes(e: Engine)
    requires
        e.state is Playing,
    ensures
        ({
            let paused = e.spec_process_cmd(Some(AudioCommand::Pause));
            let resumed = paused.spec_process_cmd(Some(AudioCommand::Play));
            &&& paused.session == e.session
            &&& paused.spec_iter_action() is Idle
            &&& paused.spec_iter_next() == paused
            &&& resumed == e
        }),
{
}

/// Law: end of stream finishes the session, and a finished session is
/// never decoded again — the following iterations idle until a command
/// changes the state. Together with [`Engine::on_stream_end`], which emits
/// `AudioFinished` and is called exactly at that event, end of stream
/// yields exactly one `AudioFinished` per session.
pub proof fn lemma_stream_end_emits_once(e: Engine)
    requires
        e.in_decode_loop(),
    ensures
        ({
            let done = e.spec_finish_session();
            &&& !done.in_decode_loop()
            &&& done.spec_iter_action() is Idle
            &&& done.spec_iter_next() == done
            &&& done.state == e.state
        }),
{
}

/// Law: a single malformed packet does not stop playback. Its decode
/// failure is classified recoverable, the engine is left untouched, the
/// decode loop still runs, and a following packet is still reported.
pub proof fn lemma_decode_error_recoverable(e: Engine, ts: u64)
    requires
        e.in_decode_loop(),
    ensures
        !spec_decode_failure_fatal(AudioError::Decode),
        e.spec_iter_action() == IterAction::RunDecodeLoop,
        e.spec_packet_emit(ts) == UiCommand::CurrentTimestamp(ts),
{
}

/// Law: once a session is installed, a packet is decoded if and only if it
/// carries the selected track's id; packets of every other track are
/// discarded.
pub proof fn lemma_track_filter(e: Engine, path: String, opts: PlayTrackOptions, track_id: u32)
    ensures
        e.spec_complete_load(path, opts).spec_should_decode(track_id) == (track_id
            == opts.track_id),
{
}

/// Law: an abandoned load leaves the engine idle, not dead. No session is
/// installed, no sink is open or ever opened while idle, the iteration does
/// nothing, and every later command is still applied — none is lost.
pub proof fn lemma_load_failed_idle(e: Engine, p: String)
    ensures
        ({
            let idle = e.spec_load_failed();
            &&& idle.session is None
            &&& !idle.spec_sink_open()
            &&& idle.spec_iter_action() is Idle
            &&& idle.spec_iter_next() == idle
            &&& idle.spec_process_cmd(Some(AudioCommand::LoadFile(p))).state == PlayerState::LoadFile(p)
        }),
{
}

/// If every track before `i` is unsupported and track `i` is supported,
/// then `i` is the first supported index.
proof fn lemma_first_supported_found(tracks: Seq<TrackInfo>, i: int)
    requires
        0 <= i < tracks.len(),
        tracks[i].supported,
        forall|j: int| 0 <= j < i ==> !tracks[j].supported,
    ensures
        Engine::spec_first_supported(tracks) == Some(i),
    decreases i,
{
    if i == 0 {
    } else {
        lemma_first_supported_found(tracks.drop_first(), i - 1);
    }
}

/// A first supported index, when it exists, is a valid index of a
/// supported track.
proof fn lemma_first_supported_bounds(tracks: Seq<TrackInfo>)
    ensures
        Engine::spec_first_supported(tracks) matches Some(i) ==> 0 <= i < tracks.len()
            && tracks[i].supported,
    decreases tracks.len(),
{
    if tracks.len() > 0 && !tracks[0].supported {
        lemma_first_supported_bounds(tracks.drop_first());
    }
}

/// If no track is supported, no first supported index exists.
proof fn lemma_first_supported_none(tracks: Seq<TrackInfo>)
    requires
        forall|j: int| 0 <= j < tracks.len() ==> !tracks[j].supported,
    ensures
        Engine::spec_first_supported(tracks) is None,
    decreases tracks.len(),
{
    if tracks.len() == 0 {
    } else {
        lemma_first_supported_none(tracks.drop_first());
    }
}

} // verus!
