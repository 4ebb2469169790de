use music_player::audio::{
    AudioError, AudioEvent, AudioManager, LoadFailure, Monitor, MonitorStep, DEFAULT_VOLUME,
    MONITOR_MAX_CHECKS, VOLUME_MAX,
};
use music_player::types::{PlaybackState, ProviderType, TrackInfo};

fn track(id: &str, title: &str) -> TrackInfo {
    TrackInfo {
        id: id.to_string(),
        title: title.to_string(),
        artist: "artist".to_string(),
        album: None,
        duration_ms: Some(180_000),
        provider: ProviderType::Yandex,
        stream_url: None,
        artwork_url: None,
    }
}

fn playing_engine(t: &TrackInfo) -> AudioManager {
    let mut m = AudioManager::new();
    let _ = m.begin_play();
    let _ = m.complete_play(t.clone());
    m
}

#[test]
fn fresh_engine_defaults() {
    let m = AudioManager::new();
    assert_eq!(m.get_playback_state(), PlaybackState::Stopped);
    assert!(m.get_current_track().is_none());
    assert_eq!(m.get_volume(), DEFAULT_VOLUME);
    assert!(m.get_queue().is_empty());
    assert_eq!(m.get_current_index(), 0);
    assert_eq!(m.get_position(), 0);
}

#[test]
fn volume_round_trip_in_range() {
    let mut m = AudioManager::new();
    assert!(m.set_volume(437).is_ok());
    assert_eq!(m.get_volume(), 437);
}

#[test]
fn volume_clamped_below() {
    let mut m = AudioManager::new();
    assert!(m.set_volume(-5).is_ok());
    assert_eq!(m.get_volume(), 0);
}

#[test]
fn volume_clamped_above() {
    let mut m = AudioManager::new();
    assert!(m.set_volume(2_000).is_ok());
    assert_eq!(m.get_volume(), VOLUME_MAX);
}

#[test]
fn volume_survives_stop_and_needs_no_session() {
    let t = track("1", "one");
    let mut m = playing_engine(&t);
    assert!(m.set_volume(750).is_ok());
    m.stop().unwrap();
    assert_eq!(m.get_volume(), 750);
    assert!(m.set_volume(250).is_ok());
    assert_eq!(m.get_volume(), 250);
}

#[test]
fn pause_succeeds_only_while_playing() {
    let t = track("1", "one");
    let mut m = playing_engine(&t);
    assert!(m.pause().is_ok());
    assert_eq!(m.get_playback_state(), PlaybackState::Paused);
    // Already paused: refused, state unchanged.
    assert_eq!(m.pause(), Err(AudioError::InvalidState));
    assert_eq!(m.get_playback_state(), PlaybackState::Paused);
}

#[test]
fn pause_refused_when_stopped() {
    let mut m = AudioManager::new();
    assert_eq!(m.pause(), Err(AudioError::InvalidState));
    assert_eq!(m.get_playback_state(), PlaybackState::Stopped);
}

#[test]
fn resume_succeeds_only_while_paused() {
    let t = track("1", "one");
    let mut m = playing_engine(&t);
    // Playing, not paused: refused.
    assert_eq!(m.resume(), Err(AudioError::InvalidState));
    assert_eq!(m.get_playback_state(), PlaybackState::Playing);
    m.pause().unwrap();
    assert!(m.resume().is_ok());
    assert_eq!(m.get_playback_state(), PlaybackState::Playing);
}

#[test]
fn resume_refused_when_stopped() {
    let mut m = AudioManager::new();
    assert_eq!(m.resume(), Err(AudioError::InvalidState));
    assert_eq!(m.get_playback_state(), PlaybackState::Stopped);
}

#[test]
fn stop_clears_track_from_playing() {
    let t = track("1", "one");
    let mut m = playing_engine(&t);
    assert!(m.stop().is_ok());
    assert_eq!(m.get_playback_state(), PlaybackState::Stopped);
    assert!(m.get_current_track().is_none());
}

#[test]
fn stop_clears_track_from_paused() {
    let t = track("1", "one");
    let mut m = playing_engine(&t);
    m.pause().unwrap();
    assert!(m.stop().is_ok());
    assert_eq!(m.get_playback_state(), PlaybackState::Stopped);
    assert!(m.get_current_track().is_none());
}

#[test]
fn stop_legal_while_loading() {
    let mut m = AudioManager::new();
    let _ = m.begin_play();
    assert!(m.stop().is_ok());
    assert_eq!(m.get_playback_state(), PlaybackState::Stopped);
    assert!(m.get_current_track().is_none());
}

#[test]
fn stop_refused_when_already_stopped() {
    let mut m = AudioManager::new();
    assert_eq!(m.stop(), Err(AudioError::InvalidState));
}

#[test]
fn empty_queue_pins_cursor_and_moves_nowhere() {
    let mut m = AudioManager::new();
    m.set_queue(Vec::new(), 0);
    assert_eq!(m.get_current_index(), 0);
    assert!(m.next_track().is_none());
    assert!(m.previous_track().is_none());
    assert_eq!(m.get_current_index(), 0);
}

#[test]
fn queue_start_index_is_clamped() {
    let mut m = AudioManager::new();
    let q = vec![track("a", "A"), track("b", "B"), track("c", "C")];
    m.set_queue(q, 5);
    assert_eq!(m.get_current_index(), 2);
    assert_eq!(m.get_queue().len(), 3);
}

#[test]
fn next_track_stops_at_the_end() {
    let mut m = AudioManager::new();
    m.set_queue(vec![track("a", "A"), track("b", "B"), track("c", "C")], 2);
    assert!(m.next_track().is_none());
    assert_eq!(m.get_current_index(), 2);
}

#[test]
fn previous_track_stops_at_the_front() {
    let mut m = AudioManager::new();
    m.set_queue(vec![track("a", "A"), track("b", "B"), track("c", "C")], 0);
    assert!(m.previous_track().is_none());
    assert_eq!(m.get_current_index(), 0);
}

#[test]
fn cursor_walks_the_queue_in_order() {
    let mut m = AudioManager::new();
    m.set_queue(vec![track("a", "A"), track("b", "B"), track("c", "C")], 0);
    let b = m.next_track().unwrap();
    assert_eq!(b.id, "b");
    let c = m.next_track().unwrap();
    assert_eq!(c.id, "c");
    assert!(m.next_track().is_none());
    let b_again = m.previous_track().unwrap();
    assert_eq!(b_again.id, "b");
}

#[test]
fn begin_play_announces_loading() {
    let mut m = AudioManager::new();
    let ev = m.begin_play();
    assert_eq!(ev, vec![AudioEvent::StateChanged(PlaybackState::Loading)]);
    assert_eq!(m.get_playback_state(), PlaybackState::Loading);
    assert!(m.get_current_track().is_none());
}

#[test]
fn complete_play_installs_the_session() {
    let t = track("1", "one");
    let mut m = AudioManager::new();
    let _ = m.begin_play();
    let (_token, ev) = m.complete_play(t.clone());
    assert_eq!(
        ev,
        vec![
            AudioEvent::StateChanged(PlaybackState::Playing),
            AudioEvent::TrackChanged(t.clone()),
        ]
    );
    assert_eq!(m.get_playback_state(), PlaybackState::Playing);
    assert_eq!(m.get_current_track(), Some(t));
}

#[test]
fn failed_resolution_leaves_stopped_engine() {
    let mut m = AudioManager::new();
    let _ = m.begin_play();
    let (err, ev) = m.abort_play(LoadFailure::Resolution);
    assert_eq!(err, AudioError::ResolutionFailed);
    assert_eq!(ev, vec![AudioEvent::StateChanged(PlaybackState::Stopped)]);
    assert_eq!(m.get_playback_state(), PlaybackState::Stopped);
    assert!(m.get_current_track().is_none());
}

#[test]
fn failed_fetch_leaves_stopped_engine() {
    let mut m = AudioManager::new();
    let _ = m.begin_play();
    let (err, _) = m.abort_play(LoadFailure::Fetch);
    assert_eq!(err, AudioError::FetchFailed);
    assert_eq!(m.get_playback_state(), PlaybackState::Stopped);
    assert!(m.get_current_track().is_none());
}

#[test]
fn failed_decode_leaves_stopped_engine() {
    let t = track("old", "old");
    let mut m = playing_engine(&t);
    // A new play tears the old session down before failing.
    let _ = m.begin_play();
    let (err, _) = m.abort_play(LoadFailure::Decode);
    assert_eq!(err, AudioError::DecodeFailed);
    assert_eq!(m.get_playback_state(), PlaybackState::Stopped);
    assert!(m.get_current_track().is_none());
}

#[test]
fn seek_is_unsupported_and_changes_nothing() {
    let t = track("1", "one");
    let mut m = playing_engine(&t);
    assert_eq!(m.seek_to(30_000), Err(AudioError::Unsupported));
    assert_eq!(m.get_playback_state(), PlaybackState::Playing);
    assert_eq!(m.get_current_track(), Some(t));
    let mut stopped = AudioManager::new();
    assert_eq!(stopped.seek_to(0), Err(AudioError::Unsupported));
    assert_eq!(stopped.get_playback_state(), PlaybackState::Stopped);
}

#[test]
fn position_is_always_zero() {
    let t = track("1", "one");
    let m = playing_engine(&t);
    assert_eq!(m.get_position(), 0);
}

#[test]
fn completion_accepted_only_from_live_session() {
    let t = track("1", "one");
    let mut m = AudioManager::new();
    let _ = m.begin_play();
    let (token, _) = m.complete_play(t);
    assert!(m.monitor_valid(token));
    let ev = m.notify_track_finished(token);
    assert_eq!(
        ev,
        vec![AudioEvent::TrackFinished, AudioEvent::StateChanged(PlaybackState::Stopped)]
    );
    assert_eq!(m.get_playback_state(), PlaybackState::Stopped);
    assert!(m.get_current_track().is_none());
    // A second report with the same token is stale: nothing fires twice.
    assert!(!m.monitor_valid(token));
    assert!(m.notify_track_finished(token).is_empty());
}

#[test]
fn stale_monitor_never_finishes_a_replaced_session() {
    let track_y = track("y", "Y");
    let track_x = track("x", "X");
    let mut m = AudioManager::new();
    let _ = m.begin_play();
    let (token_y, _) = m.complete_play(track_y);
    // A new play begins; the fetch for X is still in flight.
    let _ = m.begin_play();
    assert!(!m.monitor_valid(token_y));
    assert!(m.notify_track_finished(token_y).is_empty());
    assert_eq!(m.get_playback_state(), PlaybackState::Loading);
    // X's session is installed; Y's monitor is still stranded.
    let (token_x, _) = m.complete_play(track_x.clone());
    assert!(!m.monitor_valid(token_y));
    assert!(m.notify_track_finished(token_y).is_empty());
    assert_eq!(m.get_playback_state(), PlaybackState::Playing);
    assert_eq!(m.get_current_track(), Some(track_x));
    // Only X's own monitor may report completion.
    let ev = m.notify_track_finished(token_x);
    assert!(ev.contains(&AudioEvent::TrackFinished));
}

#[test]
fn stop_strands_the_monitor() {
    let t = track("1", "one");
    let mut m = AudioManager::new();
    let _ = m.begin_play();
    let (token, _) = m.complete_play(t);
    m.stop().unwrap();
    assert!(!m.monitor_valid(token));
    assert!(m.notify_track_finished(token).is_empty());
    assert_eq!(m.get_playback_state(), PlaybackState::Stopped);
}

#[test]
fn completion_not_accepted_while_paused() {
    let mut m = AudioManager::new();
    let _ = m.begin_play();
    let (token, _) = m.complete_play(track("2", "two"));
    m.pause().unwrap();
    assert!(!m.monitor_valid(token));
    assert!(m.notify_track_finished(token).is_empty());
    assert_eq!(m.get_playback_state(), PlaybackState::Paused);
}

#[test]
fn device_failure_ends_a_live_session() {
    let t = track("1", "one");
    let mut m = playing_engine(&t);
    let ev = m.device_failed();
    assert_eq!(
        ev,
        vec![AudioEvent::TrackFinished, AudioEvent::StateChanged(PlaybackState::Stopped)]
    );
    assert_eq!(m.get_playback_state(), PlaybackState::Stopped);
    assert!(m.get_current_track().is_none());
}

#[test]
fn device_failure_without_session_is_a_no_op() {
    let mut m = AudioManager::new();
    assert!(m.device_failed().is_empty());
    assert_eq!(m.get_playback_state(), PlaybackState::Stopped);
}

#[test]
fn track_clone_is_equal() {
    let t = TrackInfo {
        id: "id".to_string(),
        title: "title".to_string(),
        artist: "artist".to_string(),
        album: Some("album".to_string()),
        duration_ms: Some(1),
        provider: ProviderType::SoundCloud,
        stream_url: Some("http://example.invalid/s".to_string()),
        artwork_url: Some("http://example.invalid/a".to_string()),
    };
    assert_eq!(t.clone(), t);
}

#[test]
fn monitor_budget_is_exact() {
    let t = track("1", "one");
    let mut m = AudioManager::new();
    let _ = m.begin_play();
    let (token, _) = m.complete_play(t);
    let mut watcher = Monitor::new(token);
    let mut polls: u32 = 0;
    loop {
        match watcher.tick(true) {
            MonitorStep::Continue => {
                polls += 1;
            }
            MonitorStep::EmitFinished => {
                polls += 1;
                break;
            }
            MonitorStep::Exit => panic!("monitor exited while its context is alive"),
        }
    }
    assert_eq!(polls, MONITOR_MAX_CHECKS);
    let ev = m.notify_track_finished(watcher.token());
    assert!(ev.contains(&AudioEvent::TrackFinished));
}

#[test]
fn monitor_exits_silently_when_context_is_gone() {
    let t = track("1", "one");
    let mut m = AudioManager::new();
    let _ = m.begin_play();
    let (token, _) = m.complete_play(t);
    let mut watcher = Monitor::new(token);
    assert_eq!(watcher.tick(true), MonitorStep::Continue);
    assert_eq!(watcher.tick(false), MonitorStep::Exit);
}
