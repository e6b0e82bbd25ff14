use music_player::commands::{AudioCommand, PlayerState, UiCommand};
use music_player::engine::{
    decode_failure_is_fatal, do_verification, first_supported_track, ignore_end_of_stream_error,
    AudioError, Engine, IterAction, PlayTrackOptions, SeekOutcome, Session, TrackInfo,
};

fn playing_engine(track_id: u32, seek_ts: u64) -> Engine {
    let mut e = Engine::new();
    e.process_audio_cmd(Some(AudioCommand::LoadFile("song.mp3".to_string())));
    let action = e.begin_iteration();
    assert_eq!(
        action,
        IterAction::StartLoad { path: "song.mp3".to_string(), seek_seconds: 0 }
    );
    let ev = e.complete_load(
        "song.mp3".to_string(),
        PlayTrackOptions { track_id, seek_ts },
        None,
    );
    assert_eq!(ev, None);
    e
}

#[test]
fn new_engine_is_unstarted_and_idle() {
    let mut e = Engine::new();
    assert_eq!(e.state, PlayerState::Unstarted);
    assert_eq!(e.session, None);
    assert_eq!(e.current_track_path, None);
    assert_eq!(e.volume, 100);
    assert_eq!(e.begin_iteration(), IterAction::Idle);
}

#[test]
fn commands_replace_transport_state() {
    let mut e = Engine::new();
    e.process_audio_cmd(Some(AudioCommand::Seek(42)));
    assert_eq!(e.state, PlayerState::SeekTo(42));
    e.process_audio_cmd(Some(AudioCommand::Stop));
    assert_eq!(e.state, PlayerState::Stopped);
    e.process_audio_cmd(Some(AudioCommand::Pause));
    assert_eq!(e.state, PlayerState::Paused);
    e.process_audio_cmd(Some(AudioCommand::Play));
    assert_eq!(e.state, PlayerState::Playing);
    e.process_audio_cmd(Some(AudioCommand::LoadFile("a.flac".to_string())));
    assert_eq!(e.state, PlayerState::LoadFile("a.flac".to_string()));
    e.process_audio_cmd(None);
    assert_eq!(e.state, PlayerState::LoadFile("a.flac".to_string()));
}

#[test]
fn select_and_volume_do_not_touch_transport_state() {
    let mut e = Engine::new();
    e.process_audio_cmd(Some(AudioCommand::Select(2)));
    assert_eq!(e.state, PlayerState::Unstarted);
    assert_eq!(e.track_num, Some(2));
    e.process_audio_cmd(Some(AudioCommand::SetVolume(35)));
    assert_eq!(e.state, PlayerState::Unstarted);
    assert_eq!(e.volume, 35);
}

// A load that never finishes is superseded: only the second file is loaded.
#[test]
fn load_file_supersedes_pending_load() {
    let mut e = Engine::new();
    e.process_audio_cmd(Some(AudioCommand::LoadFile("a.mp3".to_string())));
    e.process_audio_cmd(Some(AudioCommand::LoadFile("b.mp3".to_string())));
    assert_eq!(e.state, PlayerState::LoadFile("b.mp3".to_string()));
    let action = e.begin_iteration();
    assert_eq!(
        action,
        IterAction::StartLoad { path: "b.mp3".to_string(), seek_seconds: 0 }
    );
    assert_eq!(e.current_track_path, Some("b.mp3".to_string()));
    e.complete_load(
        "b.mp3".to_string(),
        PlayTrackOptions { track_id: 1, seek_ts: 0 },
        None,
    );
    let s = e.session.clone().unwrap();
    assert_eq!(s.path, "b.mp3".to_string());
    assert!(!s.sink_open);
    assert!(!s.finished);
    assert_eq!(e.state, PlayerState::Playing);
}

// Trim invariant: packets below the resolved seek timestamp are reported
// but never written; packets at or above it are written.
#[test]
fn soft_seek_trims_below_threshold() {
    let mut e = playing_engine(7, 1000);
    let (ev, should_decode) = e.on_packet(7, 400);
    assert_eq!(ev, UiCommand::CurrentTimestamp(400));
    assert!(should_decode);
    let w = e.on_decode_ok(400);
    assert!(w.open_sink);
    assert!(!w.write_samples);
    let (ev, _) = e.on_packet(7, 1000);
    assert_eq!(ev, UiCommand::CurrentTimestamp(1000));
    let w = e.on_decode_ok(1000);
    assert!(!w.open_sink);
    assert!(w.write_samples);
    let w = e.on_decode_ok(5000);
    assert!(w.write_samples);
}

// Pause then Play resumes without reloading: the session (and its open
// sink) is exactly the one from before the pause.
#[test]
fn pause_play_keeps_session_identity() {
    let mut e = playing_engine(1, 0);
    let w = e.on_decode_ok(0);
    assert!(w.open_sink && w.write_samples);
    let before = e.session.clone();
    e.process_audio_cmd(Some(AudioCommand::Pause));
    assert_eq!(e.state, PlayerState::Paused);
    assert_eq!(e.begin_iteration(), IterAction::Idle);
    assert_eq!(e.session, before);
    e.process_audio_cmd(Some(AudioCommand::Play));
    assert_eq!(e.state, PlayerState::Playing);
    assert_eq!(e.session, before);
    assert_eq!(e.begin_iteration(), IterAction::RunDecodeLoop);
    // the sink is still open: the next decode does not re-open it
    let w = e.on_decode_ok(10);
    assert!(!w.open_sink);
}

// End of stream yields exactly one AudioFinished and the loop never
// re-enters for the finished session.
#[test]
fn end_of_stream_emits_audio_finished_once() {
    let mut e = playing_engine(1, 0);
    assert_eq!(e.begin_iteration(), IterAction::RunDecodeLoop);
    let ev = e.on_stream_end();
    assert_eq!(ev, UiCommand::AudioFinished);
    assert!(e.session.as_ref().unwrap().finished);
    // state is unchanged, but the loop is not re-entered: no second event
    assert_eq!(e.state, PlayerState::Playing);
    assert_eq!(e.begin_iteration(), IterAction::Idle);
    assert_eq!(e.begin_iteration(), IterAction::Idle);
    // and end of stream is not an error
    assert_eq!(ignore_end_of_stream_error(Err(AudioError::EndOfStream)), Ok(()));
}

// One corrupt packet mid-stream does not stop playback: the failure is
// recoverable and a later packet is still reported.
#[test]
fn corrupt_packet_does_not_stop_playback() {
    let mut e = playing_engine(3, 0);
    let (ev, should) = e.on_packet(3, 100);
    assert_eq!(ev, UiCommand::CurrentTimestamp(100));
    assert!(should);
    // the decode of that packet fails with a decode error: not fatal
    assert!(!decode_failure_is_fatal(&AudioError::Decode));
    assert_eq!(e.begin_iteration(), IterAction::RunDecodeLoop);
    let (ev, should) = e.on_packet(3, 200);
    assert_eq!(ev, UiCommand::CurrentTimestamp(200));
    assert!(should);
    let w = e.on_decode_ok(200);
    assert!(w.open_sink && w.write_samples);
    // any other failure is fatal and finishes the session without an event
    assert!(decode_failure_is_fatal(&AudioError::Io));
    assert!(decode_failure_is_fatal(&AudioError::Other));
    e.on_fatal_error();
    assert_eq!(e.begin_iteration(), IterAction::Idle);
}

// A three-track container with track 2 selected by index: only packets
// carrying that track's id are decoded.
#[test]
fn only_selected_track_is_decoded() {
    let tracks = [
        TrackInfo { id: 10, supported: true },
        TrackInfo { id: 20, supported: true },
        TrackInfo { id: 30, supported: true },
    ];
    let mut e = Engine::new();
    e.process_audio_cmd(Some(AudioCommand::Select(1)));
    e.process_audio_cmd(Some(AudioCommand::LoadFile("multi.mkv".to_string())));
    e.begin_iteration();
    let idx = e.select_track(&tracks).unwrap();
    assert_eq!(idx, 1);
    e.complete_load(
        "multi.mkv".to_string(),
        PlayTrackOptions { track_id: tracks[idx].id, seek_ts: 0 },
        Some(90_000),
    );
    let (_, d10) = e.on_packet(10, 5);
    let (_, d20) = e.on_packet(20, 6);
    let (_, d30) = e.on_packet(30, 7);
    assert!(!d10);
    assert!(d20);
    assert!(!d30);
}

// A missing or unsupported file leaves the engine idle with no session and
// no sink, and later commands are still applied.
#[test]
fn failed_load_leaves_engine_idle() {
    let mut e = Engine::new();
    e.process_audio_cmd(Some(AudioCommand::LoadFile("missing.mp3".to_string())));
    let action = e.begin_iteration();
    assert_eq!(
        action,
        IterAction::StartLoad { path: "missing.mp3".to_string(), seek_seconds: 0 }
    );
    // the probe failed: the load is abandoned
    e.load_failed();
    assert_eq!(e.session, None);
    assert_eq!(e.state, PlayerState::Stopped);
    assert_eq!(e.begin_iteration(), IterAction::Idle);
    // no command was lost: the next load goes through as usual
    e.process_audio_cmd(Some(AudioCommand::LoadFile("there.mp3".to_string())));
    assert_eq!(e.state, PlayerState::LoadFile("there.mp3".to_string()));
    let action = e.begin_iteration();
    assert_eq!(
        action,
        IterAction::StartLoad { path: "there.mp3".to_string(), seek_seconds: 0 }
    );
}

// Any command sequence is accepted in any state; none panics.
#[test]
fn arbitrary_command_sequences_never_panic() {
    let mut e = Engine::new();
    let cmds = [
        AudioCommand::Play,
        AudioCommand::Seek(9),
        AudioCommand::Pause,
        AudioCommand::SetVolume(999),
        AudioCommand::LoadFile(String::new()),
        AudioCommand::Select(usize::MAX),
        AudioCommand::Stop,
        AudioCommand::Play,
    ];
    for _round in 0..3 {
        for c in &cmds {
            e.process_audio_cmd(Some(c.clone()));
            let _ = e.begin_iteration();
        }
        e.load_failed();
    }
}

#[test]
fn stop_flushes_sink_once() {
    let mut e = playing_engine(1, 0);
    e.on_decode_ok(0);
    assert!(e.session.as_ref().unwrap().sink_open);
    e.process_audio_cmd(Some(AudioCommand::Stop));
    assert_eq!(e.begin_iteration(), IterAction::FlushSink);
    assert!(!e.session.as_ref().unwrap().sink_open);
    assert_eq!(e.begin_iteration(), IterAction::Idle);
}

#[test]
fn seek_reloads_current_source() {
    let mut e = playing_engine(1, 0);
    e.process_audio_cmd(Some(AudioCommand::Seek(90)));
    assert_eq!(e.state, PlayerState::SeekTo(90));
    let action = e.begin_iteration();
    assert_eq!(
        action,
        IterAction::StartLoad { path: "song.mp3".to_string(), seek_seconds: 90 }
    );
}

// The full seek flow: the command reloads the source with the offset, the
// reader's actual landing point becomes the trim threshold, and writes
// start exactly there.
#[test]
fn seek_flow_trims_at_resolved_timestamp() {
    let tracks = [TrackInfo { id: 1, supported: true }];
    let mut e = playing_engine(1, 0);
    e.process_audio_cmd(Some(AudioCommand::Seek(2)));
    let action = e.begin_iteration();
    assert_eq!(
        action,
        IterAction::StartLoad { path: "song.mp3".to_string(), seek_seconds: 2 }
    );
    // the reader could only seek to a sync point shortly before the target
    let opts = e.resolve_seek(0, &SeekOutcome::Seeked(88_000), &tracks).unwrap();
    assert_eq!(opts, PlayTrackOptions { track_id: 1, seek_ts: 88_000 });
    e.complete_load("song.mp3".to_string(), opts, None);
    let w = e.on_decode_ok(87_999);
    assert!(!w.write_samples);
    let w = e.on_decode_ok(88_000);
    assert!(w.write_samples);
}

#[test]
fn seek_without_source_is_a_no_op() {
    let mut e = Engine::new();
    e.process_audio_cmd(Some(AudioCommand::Seek(5)));
    assert_eq!(e.begin_iteration(), IterAction::Idle);
    assert_eq!(e.current_track_path, None);
}

#[test]
fn playing_without_session_idles_instead_of_crashing() {
    let mut e = Engine::new();
    e.process_audio_cmd(Some(AudioCommand::Play));
    assert_eq!(e.state, PlayerState::Playing);
    assert_eq!(e.begin_iteration(), IterAction::Idle);
}

#[test]
fn select_track_prefers_valid_index_else_first_supported() {
    let tracks = [
        TrackInfo { id: 4, supported: false },
        TrackInfo { id: 5, supported: true },
        TrackInfo { id: 6, supported: true },
    ];
    let mut e = Engine::new();
    // no preference: first supported
    assert_eq!(e.select_track(&tracks), Some(1));
    // valid preference wins, even over earlier supported tracks
    e.process_audio_cmd(Some(AudioCommand::Select(2)));
    assert_eq!(e.select_track(&tracks), Some(2));
    // an out-of-range preference falls back to the first supported track
    e.process_audio_cmd(Some(AudioCommand::Select(9)));
    assert_eq!(e.select_track(&tracks), Some(1));
    // no decodable track at all
    let dead = [TrackInfo { id: 1, supported: false }];
    assert_eq!(e.select_track(&dead), None);
}

#[test]
fn first_supported_track_finds_first() {
    let tracks = [
        TrackInfo { id: 9, supported: false },
        TrackInfo { id: 8, supported: false },
        TrackInfo { id: 7, supported: true },
        TrackInfo { id: 6, supported: true },
    ];
    assert_eq!(first_supported_track(&tracks), Some(2));
    assert_eq!(first_supported_track(&[]), None);
}

#[test]
fn resolve_seek_outcomes() {
    let tracks = [
        TrackInfo { id: 4, supported: false },
        TrackInfo { id: 5, supported: true },
    ];
    let e = Engine::new();
    // success: the reached timestamp becomes the trim threshold
    assert_eq!(
        e.resolve_seek(1, &SeekOutcome::Seeked(44_100), &tracks),
        Some(PlayTrackOptions { track_id: 5, seek_ts: 44_100 })
    );
    // plain failure: keep the track, trim nothing
    assert_eq!(
        e.resolve_seek(1, &SeekOutcome::Failed, &tracks),
        Some(PlayTrackOptions { track_id: 5, seek_ts: 0 })
    );
    // reset required: re-select the first decodable track, trim nothing
    assert_eq!(
        e.resolve_seek(0, &SeekOutcome::ResetRequired, &tracks),
        Some(PlayTrackOptions { track_id: 5, seek_ts: 0 })
    );
    // reset required with no decodable track: the load is abandoned
    let dead = [TrackInfo { id: 1, supported: false }];
    assert_eq!(e.resolve_seek(0, &SeekOutcome::ResetRequired, &dead), None);
}

#[test]
fn complete_load_reports_duration_when_known() {
    let mut e = Engine::new();
    let ev = e.complete_load(
        "d.mp3".to_string(),
        PlayTrackOptions { track_id: 1, seek_ts: 0 },
        Some(123_456),
    );
    assert_eq!(ev, Some(UiCommand::TotalTrackDuration(123_456)));
}

#[test]
fn ignore_end_of_stream_error_passes_others_through() {
    assert_eq!(ignore_end_of_stream_error(Ok(())), Ok(()));
    assert_eq!(ignore_end_of_stream_error(Err(AudioError::Io)), Err(AudioError::Io));
    assert_eq!(ignore_end_of_stream_error(Err(AudioError::Decode)), Err(AudioError::Decode));
    assert_eq!(ignore_end_of_stream_error(Err(AudioError::EndOfStream)), Ok(()));
}

#[test]
fn do_verification_reports_only_failed_checks() {
    assert_eq!(do_verification(Some(true)), 0);
    assert_eq!(do_verification(Some(false)), 1);
    assert_eq!(do_verification(None), 0);
}

#[test]
fn session_fields_round_trip() {
    let s = Session {
        path: "x.mp3".to_string(),
        opts: PlayTrackOptions { track_id: 2, seek_ts: 3 },
        sink_open: false,
        finished: false,
    };
    assert_eq!(s.opts.track_id, 2);
    assert_eq!(s.opts.seek_ts, 3);
    assert_eq!(s.clone(), s);
}
